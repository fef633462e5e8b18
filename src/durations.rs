use vstd::prelude::*;

use crate::activity::Activity;

verus! {

/// A whole day, as a fraction in billionths.
pub const ONE: u32 = 1_000_000_000;

/// How far above `ONE` a day's durations may sum and still count as a whole day
/// (a hundred-thousandth, in billionths).
pub const EPSILON: u32 = 10_000;

/// The fraction of the day that a person spends on each activity, in billionths.
#[derive(Clone, Copy, Debug, PartialEq, Eq, Structural)]
pub struct Durations {
    pub home: u32,
    pub work: u32,
    pub retail: u32,
    pub nightclub: u32,
    pub primary_school: u32,
    pub secondary_school: u32,
}

/// Why building a population failed.
#[derive(Clone, Copy, Debug, PartialEq, Eq, Structural)]
pub enum PopulationError {
    /// A person's durations sum above `ONE + EPSILON`; carries the sum.
    DurationOverflow { total: u64 },
}

impl Durations {
    pub open spec fn spec_get(self, activity: Activity) -> u32 {
        match activity {
            Activity::Home => self.home,
            Activity::Work => self.work,
            Activity::Retail => self.retail,
            Activity::Nightclub => self.nightclub,
            Activity::PrimarySchool => self.primary_school,
            Activity::SecondarySchool => self.secondary_school,
        }
    }

    /// Sum of the durations over all activities.
    pub open spec fn total(self) -> int {
        self.home + self.work + self.retail + self.nightclub + self.primary_school
            + self.secondary_school
    }

    /// The duration of one activity.
    pub fn get(&self, activity: Activity) -> (r: u32)
        ensures
            r == self.spec_get(activity),
    {
        match activity {
            Activity::Home => self.home,
            Activity::Work => self.work,
            Activity::Retail => self.retail,
            Activity::Nightclub => self.nightclub,
            Activity::PrimarySchool => self.primary_school,
            Activity::SecondarySchool => self.secondary_school,
        }
    }

    /// Sum of the durations over all activities.
    pub fn sum(&self) -> (r: u64)
        ensures
            r == self.total(),
    {
        self.home as u64 + self.work as u64 + self.retail as u64 + self.nightclub as u64
            + self.primary_school as u64 + self.secondary_school as u64
    }
}

/// Durations that sum above a whole day by more than `EPSILON`.
pub open spec fn overflows(d: Durations) -> bool {
    d.total() > ONE + EPSILON
}

/// The durations after padding: below a whole day, Home is set to what the
/// whole sum lacks of `ONE`; otherwise nothing changes.
pub open spec fn padded(d: Durations) -> Durations {
    if d.total() < ONE {
        Durations { home: (ONE - d.total()) as u32, ..d }
    } else {
        d
    }
}

/// Checks that the durations do not overflow a day, and pads Home when they
/// fall short of one.
pub fn pad_durations(durations: &mut Durations) -> (r: Result<(), PopulationError>)
    ensures
        r is Err <==> overflows(*old(durations)),
        r is Err ==> r == Err::<(), PopulationError>(
            PopulationError::DurationOverflow { total: old(durations).total() as u64 },
        ) && *final(durations) == *old(durations),
        r is Ok ==> *final(durations) == padded(*old(durations)),
{
    let total = durations.sum();
    if total > ONE as u64 + EPSILON as u64 {
        Err(PopulationError::DurationOverflow { total })
    } else {
        if total < ONE as u64 {
            durations.home = (ONE as u64 - total) as u32;
        }
        Ok(())
    }
}

} // verus!
