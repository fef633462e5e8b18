use ramp::{
    build_population, durations_of, flow_requests, initialize, pad_durations, position_of_zone,
    setup_venue_flows, Activity, ActivityFlows, Durations, Flow, PersonID, PopulationError,
    Threshold, TimeUseRecord, Venue, VenueID, ZoneFlows, ONE,
};

fn record(
    zone: &str,
    hid: isize,
    pid: isize,
    age: usize,
    phome: u32,
    pwork: u32,
    pschool: u32,
) -> TimeUseRecord {
    TimeUseRecord {
        zone: zone.to_string(),
        hid,
        pid,
        phome,
        pwork,
        pleisure: 0,
        pshop: 0,
        pschool,
        age,
    }
}

fn zone_flows(zone: &str, venues: &[(usize, u32)]) -> ZoneFlows {
    ZoneFlows {
        zone: zone.to_string(),
        flows: venues
            .iter()
            .map(|&(v, p)| Flow { venue: VenueID(v), probability: p })
            .collect(),
    }
}

fn catalog(n: usize) -> Vec<Venue> {
    (0..n).map(|i| Venue { id: VenueID(i), name: format!("venue {}", i) }).collect()
}

#[test]
fn three_records() {
    let records = vec![
        record("Z1", 5, 1, 8, 500_000_000, 0, 300_000_000),
        record("Z1", 5, 2, 40, 600_000_000, 400_000_000, 0),
        record("Z2", -1, 3, 30, 500_000_000, 0, 0),
    ];
    let built = build_population(&records).unwrap();
    let pop = &built.population;
    assert_eq!(pop.households.len(), 1);
    assert_eq!(pop.people.len(), 2);
    assert_eq!(built.skipped, 1);
    assert_eq!(pop.households[0].zone, "Z1");
    assert_eq!(pop.households[0].orig_hid, 5);
    let child = &pop.people[0].duration_per_activity;
    assert_eq!(child.get(Activity::PrimarySchool), 300_000_000);
    assert_eq!(child.get(Activity::SecondarySchool), 0);
    assert_eq!(child.get(Activity::Home), 200_000_000);
    let adult = &pop.people[1].duration_per_activity;
    assert_eq!(adult.get(Activity::Home), 600_000_000);
    assert_eq!(adult.get(Activity::Work), 400_000_000);
}

#[test]
fn sum_within_epsilon_is_kept() {
    let records = vec![record("Z1", 1, 1, 40, 600_005_000, 400_000_000, 0)];
    let built = build_population(&records).unwrap();
    let d = built.population.people[0].duration_per_activity;
    assert_eq!(d.home, 600_005_000);
    assert_eq!(d.sum(), 1_000_005_000);
}

#[test]
fn sum_beyond_epsilon_overflows() {
    let records = vec![record("Z1", 1, 1, 40, 600_020_000, 400_000_000, 0)];
    match build_population(&records) {
        Err(PopulationError::DurationOverflow { total }) => assert_eq!(total, 1_000_020_000),
        Ok(_) => panic!("expected an overflow"),
    }
}

#[test]
fn overflow_gives_no_population() {
    let records = vec![
        record("Z1", 1, 1, 40, 1_000_000_000, 0, 0),
        record("Z1", 1, 2, 40, 800_000_000, 400_000_000, 0),
        record("Z1", 1, 3, 40, 900_000_000, 400_000_000, 0),
    ];
    match build_population(&records) {
        Err(PopulationError::DurationOverflow { total }) => assert_eq!(total, 1_200_000_000),
        Ok(_) => panic!("expected an overflow"),
    }
    match initialize(&records, Vec::new()) {
        Err(PopulationError::DurationOverflow { total }) => assert_eq!(total, 1_200_000_000),
        Ok(_) => panic!("expected an overflow"),
    }
}

#[test]
fn overflow_in_skipped_record_is_ignored() {
    let records = vec![record("Z1", -1, 1, 40, 900_000_000, 400_000_000, 0)];
    let built = build_population(&records).unwrap();
    assert_eq!(built.skipped, 1);
    assert!(built.population.people.is_empty());
    assert!(built.population.households.is_empty());
}

#[test]
fn padding_without_home_reaches_a_day() {
    let records = vec![record("Z1", 1, 1, 40, 0, 250_000_000, 0)];
    let built = build_population(&records).unwrap();
    let d = built.population.people[0].duration_per_activity;
    assert_eq!(d.home, 750_000_000);
    assert_eq!(d.sum(), ONE as u64);
}

#[test]
fn whole_day_is_unchanged() {
    let records = vec![record("Z1", 1, 1, 40, 300_000_000, 700_000_000, 0)];
    let built = build_population(&records).unwrap();
    assert_eq!(built.population.people[0].duration_per_activity, durations_of(&records[0]));
}

#[test]
fn school_time_by_age() {
    let ages = [10usize, 11, 18, 19];
    let records: Vec<TimeUseRecord> = ages
        .iter()
        .enumerate()
        .map(|(i, &age)| record("Z1", 1, i as isize, age, 0, 0, 400_000_000))
        .collect();
    let built = build_population(&records).unwrap();
    let d: Vec<Durations> =
        built.population.people.iter().map(|p| p.duration_per_activity).collect();
    assert_eq!((d[0].primary_school, d[0].secondary_school), (400_000_000, 0));
    assert_eq!((d[1].primary_school, d[1].secondary_school), (0, 400_000_000));
    assert_eq!((d[2].primary_school, d[2].secondary_school), (0, 400_000_000));
    assert_eq!((d[3].primary_school, d[3].secondary_school), (0, 0));
    assert_eq!(d[3].home, ONE);
    assert_eq!(d[0].home, 600_000_000);
}

#[test]
fn ids_are_positions_and_members_agree() {
    let records = vec![
        record("Z1", 1, 1, 40, ONE, 0, 0),
        record("Z2", 1, 2, 40, ONE, 0, 0),
        record("Z1", 2, 3, 40, ONE, 0, 0),
        record("Z1", 1, 4, 40, ONE, 0, 0),
        record("Z2", 1, 5, 40, ONE, 0, 0),
    ];
    let built = build_population(&records).unwrap();
    let pop = &built.population;
    assert_eq!(pop.households.len(), 3);
    for (i, h) in pop.households.iter().enumerate() {
        assert_eq!(h.id.0, i);
        assert_eq!(h.disease_danger, 0);
        for m in &h.members {
            assert_eq!(pop.people[m.0].household, h.id);
        }
    }
    for (i, p) in pop.people.iter().enumerate() {
        assert_eq!(p.id.0, i);
        assert_eq!(p.orig_pid, i as isize + 1);
        assert!(pop.households[p.household.0].members.contains(&PersonID(i)));
    }
    assert_eq!(pop.households[0].members, vec![PersonID(0), PersonID(3)]);
    assert_eq!(pop.households[1].members, vec![PersonID(1), PersonID(4)]);
    assert_eq!(pop.households[2].members, vec![PersonID(2)]);
    assert_eq!(pop.households[1].zone, "Z2");
    assert_eq!(pop.households[2].orig_hid, 2);
}

#[test]
fn unmatched_records_are_counted() {
    let records = vec![
        record("Z1", -1, 1, 40, ONE, 0, 0),
        record("Z1", 3, 2, 40, ONE, 0, 0),
        record("Z2", -1, 3, 40, ONE, 0, 0),
        record("Z3", -1, 4, 40, ONE, 0, 0),
    ];
    let built = build_population(&records).unwrap();
    assert_eq!(built.skipped, 3);
    assert_eq!(built.population.people.len(), 1);
    assert_eq!(built.population.people[0].orig_pid, 2);
    assert_eq!(built.population.households.len(), 1);
}

#[test]
fn empty_records_give_empty_population() {
    let built = build_population(&Vec::new()).unwrap();
    assert_eq!(built.skipped, 0);
    assert!(built.population.people.is_empty());
    assert!(built.population.unique_zones().is_empty());
    assert_eq!(built.population.venues_per_activity.len(), 6);
}

#[test]
fn unique_zones_in_first_seen_order() {
    let records = vec![
        record("Z2", 1, 1, 40, ONE, 0, 0),
        record("Z1", 1, 2, 40, ONE, 0, 0),
        record("Z2", 2, 3, 40, ONE, 0, 0),
        record("Z3", 1, 4, 40, ONE, 0, 0),
    ];
    let built = build_population(&records).unwrap();
    assert_eq!(built.population.unique_zones(), vec!["Z2", "Z1", "Z3"]);
}

#[test]
fn position_of_zone_finds_first() {
    let zones = vec!["A".to_string(), "B".to_string(), "B".to_string()];
    assert_eq!(position_of_zone(&zones, &"B".to_string()), Some(1));
    assert_eq!(position_of_zone(&zones, &"C".to_string()), None);
}

#[test]
fn same_zone_gets_same_flows() {
    let records = vec![
        record("Z1", 1, 1, 40, ONE, 0, 0),
        record("Z2", 1, 2, 40, ONE, 0, 0),
        record("Z1", 2, 3, 40, ONE, 0, 0),
        record("Z9", 1, 4, 40, ONE, 0, 0),
    ];
    let mut pop = build_population(&records).unwrap().population;
    let flows = vec![
        zone_flows("Z1", &[(3, 600_000_000), (1, 400_000_000)]),
        zone_flows("Z2", &[(0, ONE)]),
    ];
    let missing = setup_venue_flows(Activity::Retail, catalog(4), &flows, &mut pop);
    assert_eq!(missing, 1);
    let retail = Activity::Retail.index();
    assert_eq!(pop.people[0].flows_per_activity[retail], pop.people[2].flows_per_activity[retail]);
    assert_eq!(pop.people[0].flows_per_activity[retail], Some(flows[0].flows.clone()));
    assert_eq!(pop.people[1].flows_per_activity[retail], Some(flows[1].flows.clone()));
    assert_eq!(pop.people[3].flows_per_activity[retail], None);
    assert_eq!(pop.people[0].flows_per_activity[Activity::Work.index()], None);
    assert_eq!(pop.venues_per_activity[retail].as_ref().map(|v| v.len()), Some(4));
    assert!(pop.venues_per_activity[Activity::Nightclub.index()].is_none());
}

#[test]
fn first_entry_for_a_zone_wins() {
    let records = vec![record("Z1", 1, 1, 40, ONE, 0, 0)];
    let mut pop = build_population(&records).unwrap().population;
    let flows = vec![zone_flows("Z1", &[(1, ONE)]), zone_flows("Z1", &[(2, ONE)])];
    setup_venue_flows(Activity::Nightclub, catalog(3), &flows, &mut pop);
    let slot = &pop.people[0].flows_per_activity[Activity::Nightclub.index()];
    assert_eq!(slot.as_ref().unwrap()[0].venue, VenueID(1));
}

#[test]
fn initialize_attaches_in_order() {
    let records = vec![
        record("Z1", 1, 1, 8, 500_000_000, 0, 300_000_000),
        record("Z2", 2, 2, 15, 500_000_000, 0, 300_000_000),
    ];
    let data = vec![
        ActivityFlows {
            activity: Activity::PrimarySchool,
            venues: catalog(2),
            flows_per_zone: vec![zone_flows("Z1", &[(0, ONE)]), zone_flows("Z2", &[(1, ONE)])],
        },
        ActivityFlows {
            activity: Activity::PrimarySchool,
            venues: catalog(5),
            flows_per_zone: vec![zone_flows("Z2", &[(4, ONE)])],
        },
        ActivityFlows {
            activity: Activity::SecondarySchool,
            venues: catalog(1),
            flows_per_zone: vec![zone_flows("Z2", &[(0, 700_000_000)])],
        },
    ];
    let built = initialize(&records, data).unwrap();
    let pop = &built.population;
    let primary = Activity::PrimarySchool.index();
    let secondary = Activity::SecondarySchool.index();
    assert_eq!(pop.people[0].flows_per_activity[primary].as_ref().unwrap()[0].venue, VenueID(0));
    assert_eq!(pop.people[1].flows_per_activity[primary].as_ref().unwrap()[0].venue, VenueID(4));
    assert_eq!(pop.people[0].flows_per_activity[secondary], None);
    assert_eq!(
        pop.people[1].flows_per_activity[secondary],
        Some(vec![Flow { venue: VenueID(0), probability: 700_000_000 }])
    );
    assert_eq!(pop.venues_per_activity[primary].as_ref().map(|v| v.len()), Some(5));
    assert_eq!(pop.venues_per_activity[secondary].as_ref().map(|v| v.len()), Some(1));
    assert!(pop.venues_per_activity[Activity::Retail.index()].is_none());
    assert_eq!(built.skipped, 0);
}

#[test]
fn flow_requests_plan() {
    let plan = flow_requests();
    let got: Vec<(Activity, Threshold)> = plan.iter().map(|r| (r.activity, r.threshold)).collect();
    assert_eq!(
        got,
        vec![
            (Activity::Retail, Threshold::TopN(10)),
            (Activity::Nightclub, Threshold::TopN(10)),
            (Activity::PrimarySchool, Threshold::TopN(5)),
            (Activity::SecondarySchool, Threshold::TopN(5)),
        ]
    );
}

#[test]
fn pad_durations_cases() {
    let mut short = Durations {
        home: 100_000_000,
        work: 500_000_000,
        retail: 0,
        nightclub: 0,
        primary_school: 0,
        secondary_school: 0,
    };
    assert_eq!(pad_durations(&mut short), Ok(()));
    assert_eq!(short.home, 400_000_000);
    let mut exact = Durations { home: 500_000_000, work: 500_000_000, ..short };
    assert_eq!(pad_durations(&mut exact), Ok(()));
    assert_eq!(exact.home, 500_000_000);
    let mut edge = Durations { home: 500_010_000, work: 500_000_000, ..short };
    assert_eq!(pad_durations(&mut edge), Ok(()));
    assert_eq!(edge.home, 500_010_000);
    let mut over = Durations { home: 500_010_001, work: 500_000_000, ..short };
    assert_eq!(
        pad_durations(&mut over),
        Err(PopulationError::DurationOverflow { total: 1_000_010_001 })
    );
    assert_eq!(over.home, 500_010_001);
}

#[test]
fn activity_indices_are_distinct() {
    let all = [
        Activity::Home,
        Activity::Work,
        Activity::Retail,
        Activity::Nightclub,
        Activity::PrimarySchool,
        Activity::SecondarySchool,
    ];
    let idx: Vec<usize> = all.iter().map(|a| a.index()).collect();
    assert_eq!(idx, vec![0, 1, 2, 3, 4, 5]);
}
