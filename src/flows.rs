use vstd::prelude::*;

use crate::activity::{Activity, ACTIVITY_COUNT};
use crate::population::{Flow, Household, Person, PersonID, Population, Venue};

verus! {

/// The flow distribution of one zone: where people who live there go, ranked.
pub struct ZoneFlows {
    pub zone: String,
    pub flows: Vec<Flow>,
}

/// The distribution of the first entry for `zone`, if there is one.
pub open spec fn zone_flows(fz: Seq<ZoneFlows>, zone: Seq<char>) -> Option<Seq<Flow>>
    decreases fz.len(),
{
    if fz.len() == 0 {
        None
    } else if fz[0].zone@ == zone {
        Some(fz[0].flows@)
    } else {
        zone_flows(fz.drop_first(), zone)
    }
}

/// Where the first entry for `zone` stands, if there is one.
fn find_zone_flows(fz: &Vec<ZoneFlows>, zone: &String) -> (r: Option<usize>)
    ensures
        match r {
            Some(k) => k < fz@.len() && zone_flows(fz@, zone@) == Some(fz@[k as int].flows@),
            None => zone_flows(fz@, zone@) is None,
        },
{
    let mut i: usize = 0;
    assert(fz@.subrange(0, fz@.len() as int) =~= fz@);
    while i < fz.len()
        invariant
            i <= fz@.len(),
            zone_flows(fz@, zone@) == zone_flows(fz@.subrange(i as int, fz@.len() as int), zone@),
        decreases fz@.len() - i,
    {
        let ghost rest = fz@.subrange(i as int, fz@.len() as int);
        assert(rest[0] == fz@[i as int]);
        if fz[i].zone == *zone {
            return Some(i);
        }
        assert(rest.drop_first() =~= fz@.subrange(i + 1, fz@.len() as int));
        i += 1;
    }
    None
}

/// A copy of a flow distribution.
fn copy_flows(flows: &Vec<Flow>) -> (r: Vec<Flow>)
    ensures
        r@ == flows@,
{
    let mut r: Vec<Flow> = Vec::new();
    let mut i: usize = 0;
    while i < flows.len()
        invariant
            i <= flows@.len(),
            r@ == flows@.subrange(0, i as int),
        decreases flows@.len() - i,
    {
        r.push(flows[i]);
        assert(r@ =~= flows@.subrange(0, i + 1));
        i += 1;
    }
    assert(r@ =~= flows@);
    r
}

/// How many of the first `n` of `people` live in a zone that `fz` has no flows for.
pub open spec fn missing_count(
    households: Seq<Household>,
    people: Seq<Person>,
    fz: Seq<ZoneFlows>,
    n: int,
) -> nat
    decreases n,
{
    if n <= 0 {
        0
    } else {
        missing_count(households, people, fz, n - 1) + if zone_flows(
            fz,
            households[people[n - 1].household.0 as int].zone@,
        ) is None {
            1nat
        } else {
            0nat
        }
    }
}

/// `new` is `old` with the flows for `activity` set to `flows` when there are
/// some; nothing else changes.
pub open spec fn flows_attached(
    old: Person,
    new: Person,
    activity: Activity,
    flows: Option<Seq<Flow>>,
) -> bool {
    &&& new.id == old.id
    &&& new.household == old.household
    &&& new.orig_pid == old.orig_pid
    &&& new.age_years == old.age_years
    &&& new.duration_per_activity == old.duration_per_activity
    &&& new.flows_per_activity@.len() == old.flows_per_activity@.len()
    &&& forall|b: int|
        0 <= b < old.flows_per_activity@.len() && b != activity.spec_index()
            ==> #[trigger] new.flows_per_activity@[b] == old.flows_per_activity@[b]
    &&& new.flows_for(activity) == match flows {
        Some(f) => Some(f),
        None => old.flows_for(activity),
    }
}

/// Going from `old` to `new`, every person got the flows for `activity` of
/// their household's zone in `fz`, where it has some, and nothing else about
/// the people or the households changed.
pub open spec fn flows_set_up(
    old: Population,
    new: Population,
    activity: Activity,
    fz: Seq<ZoneFlows>,
) -> bool {
    &&& new.households == old.households
    &&& new.people@.len() == old.people@.len()
    &&& forall|p: int|
        0 <= p < old.people@.len() ==> flows_attached(
            #[trigger] old.people@[p],
            new.people@[p],
            activity,
            zone_flows(fz, old.zone_of(p)),
        )
}

/// Stores the venue catalog of `activity`, and gives every person the flow
/// distribution of their household's zone for it. People whose zone has no
/// distribution keep what they had; their number is returned.
pub fn setup_venue_flows(
    activity: Activity,
    venues: Vec<Venue>,
    flows_per_zone: &Vec<ZoneFlows>,
    population: &mut Population,
) -> (missing: usize)
    requires
        old(population).wf(),
    ensures
        final(population).wf(),
        final(population).venues_per_activity@ == old(population).venues_per_activity@.update(
            activity.spec_index() as int,
            Some(venues),
        ),
        flows_set_up(*old(population), *final(population), activity, flows_per_zone@),
        missing == missing_count(
            old(population).households@,
            old(population).people@,
            flows_per_zone@,
            old(population).people@.len() as int,
        ),
{
    let a = activity.index();
    population.venues_per_activity.set(a, Some(venues));
    // The position in `flows_per_zone` of each household's zone.
    let mut by_household: Vec<Option<usize>> = Vec::new();
    let mut h: usize = 0;
    while h < population.households.len()
        invariant
            h <= population.households@.len(),
            by_household@.len() == h,
            forall|g: int|
                0 <= g < h ==> match #[trigger] by_household@[g] {
                    Some(k) => k < flows_per_zone@.len() && zone_flows(
                        flows_per_zone@,
                        population.households@[g].zone@,
                    ) == Some(flows_per_zone@[k as int].flows@),
                    None => zone_flows(flows_per_zone@, population.households@[g].zone@) is None,
                },
        decreases population.households@.len() - h,
    {
        let found = find_zone_flows(flows_per_zone, &population.households[h].zone);
        by_household.push(found);
        h += 1;
    }
    let ghost pop0 = *population;
    let mut missing: usize = 0;
    let mut p: usize = 0;
    while p < population.people.len()
        invariant
            pop0.wf(),
            population.households == pop0.households,
            population.venues_per_activity == pop0.venues_per_activity,
            population.people@.len() == pop0.people@.len(),
            p <= pop0.people@.len(),
            by_household@.len() == pop0.households@.len(),
            a == activity.spec_index(),
            forall|g: int|
                0 <= g < pop0.households@.len() ==> match #[trigger] by_household@[g] {
                    Some(k) => k < flows_per_zone@.len() && zone_flows(
                        flows_per_zone@,
                        pop0.households@[g].zone@,
                    ) == Some(flows_per_zone@[k as int].flows@),
                    None => zone_flows(flows_per_zone@, pop0.households@[g].zone@) is None,
                },
            forall|q: int|
                0 <= q < p ==> flows_attached(
                    #[trigger] pop0.people@[q],
                    population.people@[q],
                    activity,
                    zone_flows(flows_per_zone@, pop0.zone_of(q)),
                ),
            forall|q: int|
                p <= q < pop0.people@.len() ==> #[trigger] population.people@[q]
                    == pop0.people@[q],
            missing == missing_count(pop0.households@, pop0.people@, flows_per_zone@, p as int),
            missing <= p,
        decreases pop0.people@.len() - p,
    {
        let ghost person0 = population.people@[p as int];
        assert(person0 == pop0.people@[p as int]);
        let g = population.people[p].household.0;
        match by_household[g] {
            Some(k) => {
                let flows = copy_flows(&flows_per_zone[k].flows);
                population.people[p].flows_per_activity.set(a, Some(flows));
            },
            None => {
                missing += 1;
            },
        }
        assert(flows_attached(
            person0,
            population.people@[p as int],
            activity,
            zone_flows(flows_per_zone@, pop0.zone_of(p as int)),
        ));
        p += 1;
    }
    proof {
        assert forall|q: int| 0 <= q < population.people@.len() implies {
            &&& (#[trigger] population.people@[q]).id.0 == q
            &&& population.people@[q].flows_per_activity@.len() == ACTIVITY_COUNT
            &&& population.people@[q].household.0 < population.households@.len()
            &&& population.households@[population.people@[q].household.0 as int].members@.contains(
                PersonID(q as usize),
            )
        } by {
            assert(flows_attached(
                pop0.people@[q],
                population.people@[q],
                activity,
                zone_flows(flows_per_zone@, pop0.zone_of(q)),
            ));
        }
    }
    missing
}

} // verus!
