use vstd::prelude::*;

use crate::activity::Activity;
use crate::builder::{
    households_from, lemma_matched_unmatched, matched, raw_durations, unmatched_count, Built,
    TimeUseRecord, UNMATCHED_HOUSEHOLD,
};
use crate::durations::{padded, EPSILON, ONE};
use crate::flows::{flows_attached, flows_set_up, zone_flows, ZoneFlows};
use crate::population::{PersonID, Population};

verus! {

/// After padding, a person's durations sum to a whole day within `EPSILON`,
/// wherever the record's own Home time is zero or its durations already reach
/// a whole day. (Padding sets Home to what the whole sum lacks, so a record
/// with Home time that falls short of a day ends below one.)
pub proof fn law_durations_sum_to_a_day(pop: Population, m: Seq<TimeUseRecord>, p: int)
    requires
        households_from(pop, m),
        0 <= p < pop.people@.len(),
        m[p].phome == 0 || raw_durations(m[p]).total() >= ONE,
    ensures
        ONE <= pop.people@[p].duration_per_activity.total() <= ONE + EPSILON,
{
    assert(pop.people@[p].duration_per_activity == padded(raw_durations(m[p])));
}

/// Durations that already sum to exactly a whole day are kept as the record
/// gives them, Home included.
pub proof fn law_whole_day_unchanged(pop: Population, m: Seq<TimeUseRecord>, p: int)
    requires
        households_from(pop, m),
        0 <= p < pop.people@.len(),
        raw_durations(m[p]).total() == ONE,
    ensures
        pop.people@[p].duration_per_activity == raw_durations(m[p]),
{
    assert(pop.people@[p].duration_per_activity == padded(raw_durations(m[p])));
}

/// Children under 11 spend no time at secondary school, people from 11 to 18
/// none at primary school, and adults none at either.
pub proof fn law_school_by_age(pop: Population, m: Seq<TimeUseRecord>, p: int)
    requires
        households_from(pop, m),
        0 <= p < pop.people@.len(),
    ensures
        ({
            let person = pop.people@[p];
            let d = person.duration_per_activity;
            &&& person.age_years < 11 ==> d.spec_get(Activity::SecondarySchool) == 0
            &&& 11 <= person.age_years < 19 ==> d.spec_get(Activity::PrimarySchool) == 0
            &&& 19 <= person.age_years ==> d.spec_get(Activity::PrimarySchool) == 0 && d.spec_get(
                Activity::SecondarySchool,
            ) == 0
        }),
{
    assert(pop.people@[p].duration_per_activity == padded(raw_durations(m[p])));
}

/// Household and person identifiers are their positions.
pub proof fn law_ids_are_positions(pop: Population)
    requires
        pop.wf(),
    ensures
        forall|h: int|
            0 <= h < pop.households@.len() ==> (#[trigger] pop.households@[h]).id.0 == h,
        forall|p: int| 0 <= p < pop.people@.len() ==> (#[trigger] pop.people@[p]).id.0 == p,
{
}

/// Each member of a household belongs to that household, and each person is a
/// member of their household.
pub proof fn law_members_agree(pop: Population)
    requires
        pop.wf(),
    ensures
        forall|h: int, j: int|
            0 <= h < pop.households@.len() && 0 <= j < pop.households@[h].members@.len() ==> {
                &&& (#[trigger] pop.households@[h].members@[j]).0 < pop.people@.len()
                &&& pop.people@[pop.households@[h].members@[j].0 as int].household.0 == h
            },
        forall|p: int|
            0 <= p < pop.people@.len() ==> {
                &&& (#[trigger] pop.people@[p]).household.0 < pop.households@.len()
                &&& pop.households@[pop.people@[p].household.0 as int].members@.contains(
                    PersonID(p as usize),
                )
            },
{
}

/// Records without a household give no person and no household, and the
/// skip count is their number.
pub proof fn law_unmatched_skipped(records: Seq<TimeUseRecord>, built: Built)
    requires
        households_from(built.population, matched(records)),
        built.skipped == unmatched_count(records),
    ensures
        built.population.people@.len() + built.skipped == records.len(),
        forall|h: int|
            0 <= h < built.population.households@.len()
                ==> (#[trigger] built.population.households@[h]).orig_hid != UNMATCHED_HOUSEHOLD,
{
    lemma_matched_unmatched(records);
    let pop = built.population;
    let m = matched(records);
    assert forall|h: int| 0 <= h < pop.households@.len() implies (
    #[trigger] pop.households@[h]).orig_hid != UNMATCHED_HOUSEHOLD by {
        let q = pop.households@[h].members@[0].0 as int;
        assert(pop.households@[h].members@[0].0 < pop.people@.len());
        assert(pop.people@[q].household.0 == h);
        assert(m[q].hid != UNMATCHED_HOUSEHOLD);
    }
}

/// Two people of one zone that has flows for an activity get the same flows
/// for it.
pub proof fn law_same_zone_same_flows(
    old: Population,
    new: Population,
    activity: Activity,
    fz: Seq<ZoneFlows>,
    p: int,
    q: int,
)
    requires
        flows_set_up(old, new, activity, fz),
        0 <= p < old.people@.len(),
        0 <= q < old.people@.len(),
        old.zone_of(p) == old.zone_of(q),
        zone_flows(fz, old.zone_of(p)) is Some,
    ensures
        new.people@[p].flows_for(activity) == new.people@[q].flows_for(activity),
        new.people@[p].flows_for(activity) == zone_flows(fz, old.zone_of(p)),
{
    assert(flows_attached(old.people@[p], new.people@[p], activity, zone_flows(fz, old.zone_of(p))));
    assert(flows_attached(old.people@[q], new.people@[q], activity, zone_flows(fz, old.zone_of(q))));
}

} // verus!
