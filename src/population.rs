use vstd::prelude::*;

use crate::activity::{Activity, ACTIVITY_COUNT};
use crate::durations::Durations;

verus! {

/// Position of a household in `Population::households`.
#[derive(Clone, Copy, Debug, PartialEq, Eq, Structural, Hash)]
pub struct HouseholdID(pub usize);

/// Position of a person in `Population::people`.
#[derive(Clone, Copy, Debug, PartialEq, Eq, Structural, Hash)]
pub struct PersonID(pub usize);

/// Position of a venue in an activity's venue catalog.
#[derive(Clone, Copy, Debug, PartialEq, Eq, Structural, Hash)]
pub struct VenueID(pub usize);

/// One destination of a flow distribution: a venue and the probability of
/// going there, in billionths.
#[derive(Clone, Copy, Debug, PartialEq, Eq, Structural)]
pub struct Flow {
    pub venue: VenueID,
    pub probability: u32,
}

/// A place where an activity happens.
#[derive(Clone, Debug)]
pub struct Venue {
    pub id: VenueID,
    pub name: String,
}

#[derive(Clone, Debug)]
pub struct Household {
    pub id: HouseholdID,
    /// Code of the zone the household lives in.
    pub zone: String,
    /// The household's key in the source records.
    pub orig_hid: isize,
    pub members: Vec<PersonID>,
    /// Accumulated hazard, owned by the simulation that runs on the population.
    pub disease_danger: u64,
}

#[derive(Clone, Debug)]
pub struct Person {
    pub id: PersonID,
    pub household: HouseholdID,
    /// The person's key in the source records.
    pub orig_pid: isize,
    pub age_years: usize,
    pub duration_per_activity: Durations,
    /// Indexed by `Activity::index`: where the person goes for each activity,
    /// if that is known.
    pub flows_per_activity: Vec<Option<Vec<Flow>>>,
}

pub struct Population {
    pub households: Vec<Household>,
    pub people: Vec<Person>,
    /// Indexed by `Activity::index`: the venue catalog of each activity, once loaded.
    pub venues_per_activity: Vec<Option<Vec<Venue>>>,
}

/// The contents of an optional flow distribution.
pub open spec fn flows_view(f: Option<Vec<Flow>>) -> Option<Seq<Flow>> {
    match f {
        Some(v) => Some(v@),
        None => None,
    }
}

impl Person {
    /// Where the person goes for `activity`, if that is known.
    pub open spec fn flows_for(self, activity: Activity) -> Option<Seq<Flow>> {
        flows_view(self.flows_per_activity@[activity.spec_index() as int])
    }
}

/// Where `zone` first stands in `zones`, if it does.
pub fn position_of_zone(zones: &Vec<String>, zone: &String) -> (r: Option<usize>)
    ensures
        match r {
            Some(j) => j < zones@.len() && zones@[j as int]@ == zone@ && forall|k: int|
                0 <= k < j ==> #[trigger] zones@[k]@ != zone@,
            None => forall|k: int| 0 <= k < zones@.len() ==> #[trigger] zones@[k]@ != zone@,
        },
{
    let mut i: usize = 0;
    while i < zones.len()
        invariant
            i <= zones@.len(),
            forall|k: int| 0 <= k < i ==> #[trigger] zones@[k]@ != zone@,
        decreases zones@.len() - i,
    {
        if zones[i] == *zone {
            return Some(i);
        }
        i += 1;
    }
    None
}

/// Whether `zone` is the code of one of `zones`.
pub open spec fn lists_zone(zones: Seq<String>, zone: Seq<char>) -> bool {
    exists|i: int| 0 <= i < zones.len() && #[trigger] zones[i]@ == zone
}

impl Population {
    /// Whether some household lives in `zone`.
    pub open spec fn has_zone(self, zone: Seq<char>) -> bool {
        exists|h: int|
            0 <= h < self.households@.len() && #[trigger] self.households@[h].zone@ == zone
    }

    /// Zone of the household that person `p` belongs to.
    pub open spec fn zone_of(self, p: int) -> Seq<char> {
        self.households@[self.people@[p].household.0 as int].zone@
    }

    /// Identifiers are positions, and households and their members agree.
    pub open spec fn wf(self) -> bool {
        &&& self.venues_per_activity@.len() == ACTIVITY_COUNT
        &&& forall|h: int|
            #![trigger self.households@[h]]
            0 <= h < self.households@.len() ==> self.households@[h].id.0 == h
        &&& forall|p: int|
            #![trigger self.people@[p]]
            0 <= p < self.people@.len() ==> {
                &&& self.people@[p].id.0 == p
                &&& self.people@[p].flows_per_activity@.len() == ACTIVITY_COUNT
                &&& self.people@[p].household.0 < self.households@.len()
                &&& self.households@[self.people@[p].household.0 as int].members@.contains(
                    PersonID(p as usize),
                )
            }
        &&& forall|h: int, j: int|
            0 <= h < self.households@.len() && 0 <= j
                < self.households@[h].members@.len() ==> {
                &&& #[trigger] self.households@[h].members@[j].0 < self.people@.len()
                &&& self.people@[self.households@[h].members@[j].0 as int].household.0 == h
            }
    }

    /// The zones of the households, each once, in the order in which they first occur.
    pub fn unique_zones(&self) -> (r: Vec<String>)
        ensures
            forall|i: int, j: int| 0 <= i < j < r@.len() ==> r@[i]@ != r@[j]@,
            forall|i: int| 0 <= i < r@.len() ==> self.has_zone(#[trigger] r@[i]@),
            forall|h: int|
                0 <= h < self.households@.len() ==> lists_zone(
                    r@,
                    #[trigger] self.households@[h].zone@,
                ),
    {
        let mut zones: Vec<String> = Vec::new();
        // Where each listed zone was first seen, and where each household's zone is listed.
        let ghost mut origin: Seq<int> = Seq::empty();
        let ghost mut listed_at: Seq<int> = Seq::empty();
        let mut h: usize = 0;
        while h < self.households.len()
            invariant
                h <= self.households@.len(),
                origin.len() == zones@.len(),
                listed_at.len() == h,
                forall|i: int, j: int| 0 <= i < j < zones@.len() ==> zones@[i]@ != zones@[j]@,
                forall|i: int|
                    0 <= i < zones@.len() ==> 0 <= #[trigger] origin[i] < h
                        && self.households@[origin[i]].zone@ == zones@[i]@,
                forall|k: int|
                    0 <= k < h ==> 0 <= #[trigger] listed_at[k] < zones@.len()
                        && zones@[listed_at[k]]@ == self.households@[k].zone@,
            decreases self.households@.len() - h,
        {
            let zone = &self.households[h].zone;
            let found = position_of_zone(&zones, zone);
            match found {
                Some(j) => {
                    proof {
                        listed_at = listed_at.push(j as int);
                    }
                },
                None => {
                    zones.push(zone.clone());
                    proof {
                        origin = origin.push(h as int);
                        listed_at = listed_at.push(zones@.len() - 1);
                    }
                },
            }
            h += 1;
        }
        assert forall|i: int| 0 <= i < zones@.len() implies self.has_zone(#[trigger] zones@[i]@) by {
            assert(self.households@[origin[i]].zone@ == zones@[i]@);
        }
        assert forall|k: int| 0 <= k < self.households@.len() implies lists_zone(
            zones@,
            #[trigger] self.households@[k].zone@,
        ) by {
            assert(zones@[listed_at[k]]@ == self.households@[k].zone@);
        }
        zones
    }
}

} // verus!
