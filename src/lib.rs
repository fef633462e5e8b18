//! Synthesis of a population for agent-based simulation: households and
//! people built from time-use survey records, each person's day split over
//! activities, and venue flows attached by home zone.

pub mod activity;
pub mod builder;
pub mod durations;
pub mod flows;
pub mod laws;
pub mod pipeline;
pub mod population;

pub use activity::{Activity, ACTIVITY_COUNT};
pub use builder::{build_population, durations_of, Built, TimeUseRecord, UNMATCHED_HOUSEHOLD};
pub use durations::{pad_durations, Durations, PopulationError, EPSILON, ONE};
pub use flows::{setup_venue_flows, ZoneFlows};
pub use pipeline::{flow_requests, initialize, ActivityFlows, FlowRequest, Threshold};
pub use population::{
    position_of_zone, Flow, Household, HouseholdID, Person, PersonID, Population, Venue, VenueID,
};
