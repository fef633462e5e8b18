use vstd::prelude::*;

verus! {

/// Number of activity kinds.
pub const ACTIVITY_COUNT: usize = 6;

/// What a person spends time on.
#[derive(Clone, Copy, Debug, PartialEq, Eq, Structural, Hash)]
pub enum Activity {
    Home,
    Work,
    Retail,
    Nightclub,
    PrimarySchool,
    SecondarySchool,
}

impl Activity {
    /// Position of the activity in per-activity tables.
    pub open spec fn spec_index(self) -> nat {
        match self {
            Activity::Home => 0,
            Activity::Work => 1,
            Activity::Retail => 2,
            Activity::Nightclub => 3,
            Activity::PrimarySchool => 4,
            Activity::SecondarySchool => 5,
        }
    }

    /// Position of the activity in per-activity tables, below `ACTIVITY_COUNT`.
    pub fn index(self) -> (r: usize)
        ensures
            r == self.spec_index(),
            r < ACTIVITY_COUNT,
    {
        match self {
            Activity::Home => 0,
            Activity::Work => 1,
            Activity::Retail => 2,
            Activity::Nightclub => 3,
            Activity::PrimarySchool => 4,
            Activity::SecondarySchool => 5,
        }
    }
}

} // verus!
