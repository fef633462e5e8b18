use vstd::prelude::*;

use crate::activity::Activity;
use crate::builder::{
    build_population, households_from, matched, overflows_first, unmatched_count, Built,
    TimeUseRecord,
};
use crate::durations::PopulationError;
use crate::flows::{flows_attached, setup_venue_flows, zone_flows, ZoneFlows};
use crate::population::{Flow, Venue};

verus! {

/// How a flow provider is to cut down each zone's distribution.
#[derive(Clone, Copy, Debug, PartialEq, Eq, Structural)]
pub enum Threshold {
    /// Keep the `n` most likely venues.
    TopN(usize),
}

/// One activity whose flows a population needs, and how to cut them down.
#[derive(Clone, Copy, Debug, PartialEq, Eq, Structural)]
pub struct FlowRequest {
    pub activity: Activity,
    pub threshold: Threshold,
}

/// What a flow provider gave for one activity: its venue catalog and the flow
/// distribution of each zone it knows.
pub struct ActivityFlows {
    pub activity: Activity,
    pub venues: Vec<Venue>,
    pub flows_per_zone: Vec<ZoneFlows>,
}

/// The activities whose flows a population gets, in the order in which they
/// are attached.
pub open spec fn spec_flow_requests() -> Seq<FlowRequest> {
    seq![
        FlowRequest { activity: Activity::Retail, threshold: Threshold::TopN(10) },
        FlowRequest { activity: Activity::Nightclub, threshold: Threshold::TopN(10) },
        FlowRequest { activity: Activity::PrimarySchool, threshold: Threshold::TopN(5) },
        FlowRequest { activity: Activity::SecondarySchool, threshold: Threshold::TopN(5) },
    ]
}

/// The activities whose flows a population gets, in the order in which they
/// are attached.
pub fn flow_requests() -> (r: Vec<FlowRequest>)
    ensures
        r@ == spec_flow_requests(),
{
    let r = vec![
        FlowRequest { activity: Activity::Retail, threshold: Threshold::TopN(10) },
        FlowRequest { activity: Activity::Nightclub, threshold: Threshold::TopN(10) },
        FlowRequest { activity: Activity::PrimarySchool, threshold: Threshold::TopN(5) },
        FlowRequest { activity: Activity::SecondarySchool, threshold: Threshold::TopN(5) },
    ];
    assert(r@ =~= spec_flow_requests());
    r
}

/// The flows for `activity` that a person in `zone` ends with once `data` is
/// attached in order: the last distribution given for that zone, if any.
pub open spec fn final_flows(
    data: Seq<ActivityFlows>,
    activity: Activity,
    zone: Seq<char>,
) -> Option<Seq<Flow>>
    decreases data.len(),
{
    if data.len() == 0 {
        None
    } else {
        let before = final_flows(data.drop_last(), activity, zone);
        if data.last().activity == activity {
            match zone_flows(data.last().flows_per_zone@, zone) {
                Some(f) => Some(f),
                None => before,
            }
        } else {
            before
        }
    }
}

/// The venue catalog of `activity` once `data` is attached in order: the last
/// one given, if any.
pub open spec fn final_venues(data: Seq<ActivityFlows>, activity: Activity) -> Option<Vec<Venue>>
    decreases data.len(),
{
    if data.len() == 0 {
        None
    } else if data.last().activity == activity {
        Some(data.last().venues)
    } else {
        final_venues(data.drop_last(), activity)
    }
}

/// Builds the population of `records`, then attaches the venues and flows of
/// each entry of `flow_data`, in order.
pub fn initialize(records: &Vec<TimeUseRecord>, flow_data: Vec<ActivityFlows>) -> (r: Result<
    Built,
    PopulationError,
>)
    ensures
        r is Ok <==> !overflows_first(matched(records@)),
        match r {
            Ok(built) => {
                &&& households_from(built.population, matched(records@))
                &&& built.skipped == unmatched_count(records@)
                &&& forall|p: int, a: Activity|
                    0 <= p < built.population.people@.len()
                        ==> #[trigger] built.population.people@[p].flows_for(a)
                        == final_flows(flow_data@, a, built.population.zone_of(p))
                &&& forall|a: Activity|
                    #[trigger] built.population.venues_per_activity@[a.spec_index() as int]
                        == final_venues(flow_data@, a)
            },
            Err(e) => exists|i: int|
                crate::builder::first_overflow(matched(records@), i)
                    && e == PopulationError::DurationOverflow {
                    total: crate::builder::raw_durations(matched(records@)[i]).total() as u64,
                },
        },
{
    let built = match build_population(records) {
        Ok(b) => b,
        Err(e) => {
            return Err(e);
        },
    };
    let skipped = built.skipped;
    let mut population = built.population;
    let ghost data = flow_data@;
    let ghost m = matched(records@);
    let mut rest = flow_data;
    let ghost mut k: int = 0;
    assert(data.subrange(0, 0) =~= Seq::<ActivityFlows>::empty());
    while rest.len() > 0
        invariant
            0 <= k,
            k + rest@.len() == data.len(),
            rest@ == data.subrange(k, data.len() as int),
            households_from(population, m),
            forall|p: int, a: Activity|
                0 <= p < population.people@.len() ==> #[trigger] population.people@[p].flows_for(a)
                    == final_flows(data.subrange(0, k), a, population.zone_of(p)),
            forall|a: Activity|
                #[trigger] population.venues_per_activity@[a.spec_index() as int] == final_venues(
                    data.subrange(0, k),
                    a,
                ),
        decreases rest@.len(),
    {
        let ghost pop0 = population;
        let ghost done = data.subrange(0, k);
        let ghost done1 = data.subrange(0, k + 1);
        let d = rest.remove(0);
        assert(d == data[k]);
        assert(done1.drop_last() =~= done);
        assert(rest@ =~= data.subrange(k + 1, data.len() as int));
        let ActivityFlows { activity, venues, flows_per_zone } = d;
        setup_venue_flows(activity, venues, &flows_per_zone, &mut population);
        proof {
            assert forall|p: int, a: Activity|
                0 <= p < population.people@.len() implies
                #[trigger] population.people@[p].flows_for(a)
                    == final_flows(done1, a, population.zone_of(p)) by {
                assert(flows_attached(
                    pop0.people@[p],
                    population.people@[p],
                    activity,
                    zone_flows(flows_per_zone@, pop0.zone_of(p)),
                ));
                assert(pop0.people@[p].flows_for(a) == final_flows(done, a, pop0.zone_of(p)));
                if a != activity {
                    assert(a.spec_index() != activity.spec_index());
                    assert(population.people@[p].flows_per_activity@[a.spec_index() as int]
                        == pop0.people@[p].flows_per_activity@[a.spec_index() as int]);
                }
            }
            assert forall|a: Activity|
                #[trigger] population.venues_per_activity@[a.spec_index() as int] == final_venues(
                    done1,
                    a,
                ) by {
                assert(pop0.venues_per_activity@[a.spec_index() as int] == final_venues(done, a));
                if a != activity {
                    assert(a.spec_index() != activity.spec_index());
                }
            }
            assert forall|p: int| #![trigger population.people@[p]]
                0 <= p < population.people@.len() implies {
                &&& crate::builder::person_from(population.people@[p], m[p])
                &&& population.zone_of(p) == m[p].zone@
                &&& population.households@[population.people@[p].household.0 as int].orig_hid
                    == m[p].hid
            } by {
                assert(flows_attached(
                    pop0.people@[p],
                    population.people@[p],
                    activity,
                    zone_flows(flows_per_zone@, pop0.zone_of(p)),
                ));
                assert(crate::builder::person_from(pop0.people@[p], m[p]));
            }
        }
        proof {
            k = k + 1;
        }
    }
    assert(data.subrange(0, k) =~= data);
    Ok(Built { population, skipped })
}

} // verus!
