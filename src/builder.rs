use vstd::prelude::*;

use std::collections::HashMap;

use crate::activity::ACTIVITY_COUNT;
use crate::durations::{overflows, pad_durations, padded, Durations, PopulationError};
use crate::population::{Flow, Household, HouseholdID, Person, PersonID, Population, Venue};

verus! {

broadcast use vstd::std_specs::hash::group_hash_axioms;

/// The household key of a record that was not matched to any household.
pub const UNMATCHED_HOUSEHOLD: isize = -1;

/// One person's time-use survey record. Fractions of the day are in billionths.
#[derive(Clone, Debug)]
pub struct TimeUseRecord {
    /// Code of the zone the person lives in.
    pub zone: String,
    pub hid: isize,
    pub pid: isize,
    pub phome: u32,
    pub pwork: u32,
    pub pleisure: u32,
    pub pshop: u32,
    pub pschool: u32,
    pub age: usize,
}

/// The durations a record gives before padding: school time goes to primary
/// school below 11, to secondary school from 11 to 18, and nowhere from 19 on.
pub open spec fn raw_durations(r: TimeUseRecord) -> Durations {
    Durations {
        home: r.phome,
        work: r.pwork,
        retail: r.pshop,
        nightclub: r.pleisure,
        primary_school: if r.age < 11 {
            r.pschool
        } else {
            0
        },
        secondary_school: if 11 <= r.age < 19 {
            r.pschool
        } else {
            0
        },
    }
}

/// The records that belong to a household, in their order.
pub open spec fn matched(s: Seq<TimeUseRecord>) -> Seq<TimeUseRecord>
    decreases s.len(),
{
    if s.len() == 0 {
        Seq::empty()
    } else if s.last().hid == UNMATCHED_HOUSEHOLD {
        matched(s.drop_last())
    } else {
        matched(s.drop_last()).push(s.last())
    }
}

/// How many records belong to no household.
pub open spec fn unmatched_count(s: Seq<TimeUseRecord>) -> nat
    decreases s.len(),
{
    if s.len() == 0 {
        0
    } else if s.last().hid == UNMATCHED_HOUSEHOLD {
        unmatched_count(s.drop_last()) + 1
    } else {
        unmatched_count(s.drop_last())
    }
}

/// Every record is either kept or counted as unmatched, and no kept record is
/// unmatched.
pub proof fn lemma_matched_unmatched(s: Seq<TimeUseRecord>)
    ensures
        matched(s).len() + unmatched_count(s) == s.len(),
        forall|i: int|
            0 <= i < matched(s).len() ==> #[trigger] matched(s)[i].hid != UNMATCHED_HOUSEHOLD,
    decreases s.len(),
{
    if s.len() > 0 {
        lemma_matched_unmatched(s.drop_last());
        let m0 = matched(s.drop_last());
        assert forall|i: int| 0 <= i < matched(s).len() implies #[trigger] matched(s)[i].hid
            != UNMATCHED_HOUSEHOLD by {
            if i < m0.len() {
                assert(matched(s)[i] == m0[i]);
            }
        }
    }
}

/// The durations a record gives before padding.
pub fn durations_of(rec: &TimeUseRecord) -> (r: Durations)
    ensures
        r == raw_durations(*rec),
{
    let (primary_school, secondary_school) = if rec.age < 11 {
        (rec.pschool, 0)
    } else if rec.age < 19 {
        (0, rec.pschool)
    } else {
        (0, 0)
    };
    Durations {
        home: rec.phome,
        work: rec.pwork,
        retail: rec.pshop,
        nightclub: rec.pleisure,
        primary_school,
        secondary_school,
    }
}

/// Whether `h` stands in `indices`.
spec fn lists_index(indices: Seq<usize>, h: int) -> bool {
    exists|j: int| 0 <= j < indices.len() && #[trigger] indices[j] as int == h
}

/// The index lists, by household key, every household with that key.
spec fn lookup_wf(lookup: Map<isize, Vec<usize>>, households: Seq<Household>) -> bool {
    &&& forall|k: isize, j: int|
        #![trigger lookup[k]@[j]]
        lookup.contains_key(k) && 0 <= j < lookup[k]@.len() ==> lookup[k]@[j] < households.len()
            && households[lookup[k]@[j] as int].orig_hid == k
    &&& forall|h: int|
        0 <= h < households.len() ==> lookup.contains_key(#[trigger] households[h].orig_hid)
            && lists_index(lookup[households[h].orig_hid]@, h)
}

/// The household with the given zone and key, if there is one.
fn find_household(
    households: &Vec<Household>,
    lookup: &HashMap<isize, Vec<usize>>,
    zone: &String,
    hid: isize,
) -> (r: Option<usize>)
    requires
        lookup_wf(lookup@, households@),
    ensures
        match r {
            Some(h) => h < households@.len() && households@[h as int].zone@ == zone@
                && households@[h as int].orig_hid == hid,
            None => forall|h: int|
                0 <= h < households@.len() && #[trigger] households@[h].orig_hid == hid
                    ==> households@[h].zone@ != zone@,
        },
{
    match lookup.get(&hid) {
        None => None,
        Some(candidates) => {
            let mut j: usize = 0;
            while j < candidates.len()
                invariant
                    lookup_wf(lookup@, households@),
                    lookup@.contains_key(hid),
                    *candidates == lookup@[hid],
                    j <= candidates@.len(),
                    forall|i: int|
                        0 <= i < j ==> households@[#[trigger] candidates@[i] as int].zone@
                            != zone@,
                decreases candidates@.len() - j,
            {
                let h = candidates[j];
                assert(lookup@[hid]@[j as int] == h);
                if households[h].zone == *zone {
                    return Some(h);
                }
                j += 1;
            }
            assert forall|h: int|
                0 <= h < households@.len() && #[trigger] households@[h].orig_hid == hid
                    implies households@[h].zone@ != zone@ by {
                let i = choose|i: int|
                    0 <= i < candidates@.len() && #[trigger] candidates@[i] as int == h;
                assert(households@[candidates@[i] as int].zone@ != zone@);
            }
            None
        },
    }
}

/// A population built from records, and how many records were skipped for
/// having no household.
pub struct Built {
    pub population: Population,
    pub skipped: usize,
}

/// `person` is what `rec` gives: its keys, its age and its padded durations,
/// which do not overflow a day.
pub open spec fn person_from(person: Person, rec: TimeUseRecord) -> bool {
    &&& !overflows(raw_durations(rec))
    &&& person.orig_pid == rec.pid
    &&& person.age_years == rec.age
    &&& person.duration_per_activity == padded(raw_durations(rec))
}

/// `pop` holds one person for each of the records `m`, in their order, grouped
/// into one household per zone and household key, households numbered in the
/// order in which their first member comes.
pub open spec fn households_from(pop: Population, m: Seq<TimeUseRecord>) -> bool {
    &&& pop.wf()
    &&& pop.people@.len() == m.len()
    &&& forall|p: int|
        #![trigger pop.people@[p]]
        0 <= p < m.len() ==> {
            &&& person_from(pop.people@[p], m[p])
            &&& pop.zone_of(p) == m[p].zone@
            &&& pop.households@[pop.people@[p].household.0 as int].orig_hid == m[p].hid
        }
    &&& forall|h: int|
        #![trigger pop.households@[h]]
        0 <= h < pop.households@.len() ==> {
            &&& pop.households@[h].disease_danger == 0
            &&& pop.households@[h].members@.len() > 0
            &&& forall|i: int, j: int|
                0 <= i < j < pop.households@[h].members@.len()
                    ==> #[trigger] pop.households@[h].members@[i].0
                    < #[trigger] pop.households@[h].members@[j].0
        }
    &&& forall|g: int, h: int|
        0 <= g < h < pop.households@.len() ==> (#[trigger] pop.households@[g]).members@[0].0 < (
        #[trigger] pop.households@[h]).members@[0].0
    &&& forall|g: int, h: int|
        0 <= g < h < pop.households@.len() ==> !((#[trigger] pop.households@[g]).zone@ == (
        #[trigger] pop.households@[h]).zone@ && pop.households@[g].orig_hid
            == pop.households@[h].orig_hid)
}

/// No venue catalog and no flows are known yet.
pub open spec fn without_flows(pop: Population) -> bool {
    &&& forall|a: int| 0 <= a < ACTIVITY_COUNT ==> #[trigger] pop.venues_per_activity@[a] is None
    &&& forall|p: int, a: int|
        0 <= p < pop.people@.len() && 0 <= a < ACTIVITY_COUNT
            ==> #[trigger] pop.people@[p].flows_per_activity@[a] is None
}

/// `pop` is what the records `m` give before any flows are attached.
pub open spec fn built_from(pop: Population, m: Seq<TimeUseRecord>) -> bool {
    households_from(pop, m) && without_flows(pop)
}

/// Some record of `m` has durations that overflow a day.
pub open spec fn overflows_first(m: Seq<TimeUseRecord>) -> bool {
    exists|i: int| 0 <= i < m.len() && overflows(raw_durations(#[trigger] m[i]))
}

/// Record `i` of `m` is the first whose durations overflow a day.
pub open spec fn first_overflow(m: Seq<TimeUseRecord>, i: int) -> bool {
    &&& 0 <= i < m.len()
    &&& overflows(raw_durations(m[i]))
    &&& forall|j: int| 0 <= j < i ==> !overflows(raw_durations(#[trigger] m[j]))
}

/// An empty flow table, one slot per activity.
fn no_flows() -> (r: Vec<Option<Vec<Flow>>>)
    ensures
        r@.len() == ACTIVITY_COUNT,
        forall|a: int| 0 <= a < ACTIVITY_COUNT ==> #[trigger] r@[a] is None,
{
    vec![None, None, None, None, None, None]
}

/// An empty venue table, one slot per activity.
fn no_venues() -> (r: Vec<Option<Vec<Venue>>>)
    ensures
        r@.len() == ACTIVITY_COUNT,
        forall|a: int| 0 <= a < ACTIVITY_COUNT ==> #[trigger] r@[a] is None,
{
    vec![None, None, None, None, None, None]
}

/// Adds the person of `rec`, with the given padded durations, to the household
/// of its zone and key, which is created if there is none yet.
#[verifier::rlimit(40)]
fn add_person(
    pop: &mut Population,
    lookup: &mut HashMap<isize, Vec<usize>>,
    rec: &TimeUseRecord,
    durations: Durations,
    Ghost(m): Ghost<Seq<TimeUseRecord>>,
)
    requires
        built_from(*old(pop), m),
        lookup_wf(old(lookup)@, old(pop).households@),
        durations == padded(raw_durations(*rec)),
        !overflows(raw_durations(*rec)),
        old(pop).people@.len() < usize::MAX,
    ensures
        built_from(*final(pop), m.push(*rec)),
        lookup_wf(final(lookup)@, final(pop).households@),
{
    let p = pop.people.len();
    let ghost pop0 = *pop;
    let h = match find_household(&pop.households, lookup, &rec.zone, rec.hid) {
        Some(h) => h,
        None => {
            let h = pop.households.len();
            pop.households.push(
                Household {
                    id: HouseholdID(h),
                    zone: rec.zone.clone(),
                    orig_hid: rec.hid,
                    members: Vec::new(),
                    disease_danger: 0,
                },
            );
            let ghost lookup0 = lookup@;
            let mut indices = match lookup.remove(&rec.hid) {
                Some(v) => v,
                None => Vec::new(),
            };
            let ghost indices0 = indices@;
            assert(lookup0.contains_key(rec.hid) ==> indices0 == lookup0[rec.hid]@);
            indices.push(h);
            lookup.insert(rec.hid, indices);
            proof {
                let hs = pop.households@;
                assert forall|k: isize, j: int|
                    #![trigger lookup@[k]@[j]]
                    lookup@.contains_key(k) && 0 <= j < lookup@[k]@.len() implies lookup@[k]@[j]
                        < hs.len() && hs[lookup@[k]@[j] as int].orig_hid == k by {
                    if k != rec.hid {
                        assert(lookup@[k] == lookup0[k]);
                        assert(lookup0[k]@[j] < pop0.households@.len());
                        assert(hs[lookup0[k]@[j] as int] == pop0.households@[lookup0[k]@[j] as int]);
                    } else if j < indices0.len() {
                        assert(lookup@[k]@[j] == lookup0[k]@[j]);
                        assert(hs[lookup0[k]@[j] as int] == pop0.households@[lookup0[k]@[j] as int]);
                    }
                }
                assert forall|g: int|
                    0 <= g < hs.len() implies lookup@.contains_key(#[trigger] hs[g].orig_hid)
                        && lists_index(lookup@[hs[g].orig_hid]@, g) by {
                    if g < h {
                        assert(hs[g] == pop0.households@[g]);
                        let k = hs[g].orig_hid;
                        assert(lookup0.contains_key(k) && lists_index(lookup0[k]@, g));
                        let j = choose|j: int|
                            0 <= j < lookup0[k]@.len() && #[trigger] lookup0[k]@[j] as int == g;
                        assert(lookup@[k]@[j] == lookup0[k]@[j]);
                    } else {
                        assert(lookup@[rec.hid]@[indices0.len() as int] as int == g);
                    }
                }
            }
            h
        },
    };
    let ghost pop1 = *pop;
    assert(pop1.people == pop0.people);
    assert(h < pop1.households@.len() && pop1.households@[h as int].zone@ == rec.zone@
        && pop1.households@[h as int].orig_hid == rec.hid);
    assert(forall|g: int|
        0 <= g < pop0.households@.len() ==> pop1.households@[g] == pop0.households@[g]);
    pop.households[h].members.push(PersonID(p));
    let flows_per_activity = no_flows();
    pop.people.push(
        Person {
            id: PersonID(p),
            household: HouseholdID(h),
            orig_pid: rec.pid,
            age_years: rec.age,
            duration_per_activity: durations,
            flows_per_activity,
        },
    );
    proof {
        let m2 = m.push(*rec);
        let hs = pop.households@;
        let ps = pop.people@;
        let h0 = pop0.households@.len();
        assert(hs.len() == pop1.households@.len());
        assert forall|g: int| 0 <= g < hs.len() && g != h implies #[trigger] hs[g]
            == pop1.households@[g] by {}
        assert(hs[h as int].members@ == pop1.households@[h as int].members@.push(PersonID(p)));
        assert forall|g: int| 0 <= g < hs.len() implies {
            &&& (#[trigger] hs[g]).id == pop1.households@[g].id
            &&& hs[g].zone == pop1.households@[g].zone
            &&& hs[g].orig_hid == pop1.households@[g].orig_hid
            &&& hs[g].disease_danger == 0
        } by {
            if g < h0 {
                assert(pop1.households@[g] == pop0.households@[g]);
            }
        }
        assert forall|q: int| 0 <= q < p implies #[trigger] ps[q] == pop0.people@[q] by {}
        // Members of the household that grew: the old ones, then `p`.
        assert forall|g: int, j: int|
            0 <= g < hs.len() && 0 <= j < hs[g].members@.len() implies {
            &&& (#[trigger] hs[g].members@[j]).0 < ps.len()
            &&& ps[hs[g].members@[j].0 as int].household.0 == g
        } by {
            if g < h0 {
                assert(pop1.households@[g] == pop0.households@[g]);
                if g != h || j < pop0.households@[g].members@.len() {
                    assert(hs[g].members@[j] == pop0.households@[g].members@[j]);
                }
            } else {
                assert(j == 0);
            }
        }
        assert forall|q: int| 0 <= q < ps.len() implies {
            &&& (#[trigger] ps[q]).id.0 == q
            &&& ps[q].flows_per_activity@.len() == ACTIVITY_COUNT
            &&& ps[q].household.0 < hs.len()
            &&& hs[ps[q].household.0 as int].members@.contains(PersonID(q as usize))
        } by {
            if q < p {
                assert(ps[q] == pop0.people@[q]);
                let g = ps[q].household.0 as int;
                assert(g < h0);
                let ms = pop0.households@[g].members@;
                assert(pop1.households@[g] == pop0.households@[g]);
                let j = choose|j: int| 0 <= j < ms.len() && ms[j] == PersonID(q as usize);
                assert(hs[g].members@[j] == ms[j]);
            } else {
                assert(hs[h as int].members@[hs[h as int].members@.len() - 1] == PersonID(p));
            }
        }
        assert(pop.wf());
        assert forall|q: int, b: int|
            0 <= q < ps.len() && 0 <= b < ACTIVITY_COUNT implies
            #[trigger] ps[q].flows_per_activity@[b] is None by {
            if q < p {
                assert(ps[q] == pop0.people@[q]);
            }
        }
        assert forall|q: int| 0 <= q < m2.len() implies {
            &&& person_from(#[trigger] ps[q], m2[q])
            &&& pop.zone_of(q) == m2[q].zone@
            &&& hs[ps[q].household.0 as int].orig_hid == m2[q].hid
        } by {
            if q < p {
                assert(m2[q] == m[q]);
                assert(pop0.zone_of(q) == m[q].zone@);
                let g = ps[q].household.0 as int;
                assert(pop1.households@[g] == pop0.households@[g]);
                assert(hs[g].zone == pop1.households@[g].zone);
            }
        }
        assert forall|g: int| 0 <= g < hs.len() implies {
            &&& (#[trigger] hs[g]).disease_danger == 0
            &&& hs[g].members@.len() > 0
            &&& forall|i: int, j: int|
                0 <= i < j < hs[g].members@.len() ==> #[trigger] hs[g].members@[i].0
                    < #[trigger] hs[g].members@[j].0
        } by {
            if g < h0 {
                assert(pop1.households@[g] == pop0.households@[g]);
                let ms = pop0.households@[g].members@;
                assert(ms.len() > 0);
                if g == h {
                    assert forall|i: int, j: int|
                        0 <= i < j < hs[g].members@.len() implies #[trigger] hs[g].members@[i].0
                            < #[trigger] hs[g].members@[j].0 by {
                        assert(hs[g].members@[i] == ms[i]);
                        assert(ms[i].0 < p);
                        if j < ms.len() {
                            assert(hs[g].members@[j] == ms[j]);
                        }
                    }
                }
            }
        }
        assert forall|g: int, k: int| 0 <= g < k < hs.len() implies
            (#[trigger] hs[g]).members@[0].0 < (#[trigger] hs[k]).members@[0].0 by {
            assert(pop1.households@[g] == pop0.households@[g]);
            assert(hs[g].members@[0] == pop0.households@[g].members@[0]);
            assert(pop0.households@[g].members@[0].0 < p);
            if k < h0 {
                assert(pop1.households@[k] == pop0.households@[k]);
                assert(hs[k].members@[0] == pop0.households@[k].members@[0]);
            }
        }
        assert forall|g: int, k: int| 0 <= g < k < hs.len() implies !((#[trigger] hs[g]).zone@
            == (#[trigger] hs[k]).zone@ && hs[g].orig_hid == hs[k].orig_hid) by {
            assert(pop1.households@[g] == pop0.households@[g]);
            if k < h0 {
                assert(pop1.households@[k] == pop0.households@[k]);
            }
        }
    }
}

/// Builds households and people from survey records, skipping the records
/// that belong to no household. Fails on the first kept record whose
/// durations overflow a day.
pub fn build_population(records: &Vec<TimeUseRecord>) -> (r: Result<Built, PopulationError>)
    ensures
        r is Ok <==> !overflows_first(matched(records@)),
        match r {
            Ok(built) => {
                &&& built_from(built.population, matched(records@))
                &&& built.skipped == unmatched_count(records@)
            },
            Err(e) => exists|i: int|
                first_overflow(matched(records@), i) && e == PopulationError::DurationOverflow {
                    total: raw_durations(matched(records@)[i]).total() as u64,
                },
        },
{
    let mut population = Population {
        households: Vec::new(),
        people: Vec::new(),
        venues_per_activity: no_venues(),
    };
    let mut lookup: HashMap<isize, Vec<usize>> = HashMap::new();
    let mut skipped: usize = 0;
    let mut i: usize = 0;
    assert(matched(records@.subrange(0, 0)) =~= Seq::<TimeUseRecord>::empty());
    while i < records.len()
        invariant
            i <= records@.len(),
            built_from(population, matched(records@.subrange(0, i as int))),
            lookup_wf(lookup@, population.households@),
            skipped + matched(records@.subrange(0, i as int)).len() == i,
            forall|j: int|
                0 <= j < matched(records@.subrange(0, i as int)).len() ==> !overflows(
                    raw_durations(#[trigger] matched(records@.subrange(0, i as int))[j]),
                ),
        decreases records@.len() - i,
    {
        let ghost before = records@.subrange(0, i as int);
        let ghost after = records@.subrange(0, i + 1);
        assert(after.drop_last() =~= before);
        assert(after.last() == records@[i as int]);
        let rec = &records[i];
        if rec.hid == UNMATCHED_HOUSEHOLD {
            assert(matched(after) == matched(before));
            skipped += 1;
        } else {
            assert(matched(after) == matched(before).push(*rec));
            let mut durations = durations_of(rec);
            match pad_durations(&mut durations) {
                Err(e) => {
                    let ghost k = matched(before).len() as int;
                    proof {
                        lemma_matched_prefix(records@, i as int + 1);
                        let all = matched(records@);
                        assert(all.subrange(0, k + 1) =~= matched(after));
                        assert forall|j: int| 0 <= j <= k implies #[trigger] all[j] == matched(
                            after,
                        )[j] by {
                            assert(all.subrange(0, k + 1)[j] == all[j]);
                        }
                        assert(matched(after)[k] == *rec);
                        assert(forall|j: int|
                            0 <= j < k ==> matched(after)[j] == matched(before)[j]);
                        assert(first_overflow(all, k));
                        assert(!(forall|j: int|
                            0 <= j < matched(records@).len() ==> !overflows(
                                raw_durations(#[trigger] matched(records@)[j]),
                            ))) by {
                            assert(overflows(raw_durations(matched(records@)[k])));
                        }
                    }
                    return Err(e);
                },
                Ok(()) => {},
            }
            add_person(&mut population, &mut lookup, rec, durations, Ghost(matched(before)));
        }
        i += 1;
    }
    assert(records@.subrange(0, records@.len() as int) =~= records@);
    proof {
        lemma_matched_unmatched(records@);
    }
    Ok(Built { population, skipped })
}

/// The records kept from a prefix are a prefix of those kept from the whole.
proof fn lemma_matched_prefix(s: Seq<TimeUseRecord>, n: int)
    requires
        0 <= n <= s.len(),
    ensures
        matched(s.subrange(0, n)).len() <= matched(s).len(),
        matched(s).subrange(0, matched(s.subrange(0, n)).len() as int) == matched(
            s.subrange(0, n),
        ),
    decreases s.len() - n,
{
    if n < s.len() {
        lemma_matched_prefix(s, n + 1);
        let a = s.subrange(0, n + 1);
        assert(a.drop_last() =~= s.subrange(0, n));
        let k = matched(s.subrange(0, n)).len() as int;
        let k1 = matched(a).len() as int;
        assert(matched(s).subrange(0, k1) == matched(a));
        assert(matched(a).subrange(0, k) =~= matched(s.subrange(0, n)));
        assert(matched(s).subrange(0, k) =~= matched(s).subrange(0, k1).subrange(0, k));
    } else {
        assert(s.subrange(0, n) =~= s);
        assert(matched(s).subrange(0, matched(s).len() as int) =~= matched(s));
    }
}

} // verus!
