use reapers_wf::config::Config;
use reapers_wf::filters::{ExclusivityFilter, Factions, Tier};
use reapers_wf::fissure_watcher::{latest, poll, Event};
use reapers_wf::mission_type::MissionType;
use reapers_wf::models::{Fissure, Timestamp};

fn moment(unix_seconds: i64) -> Timestamp {
    Timestamp { unix_seconds, nanosecond: 0, offset_seconds: 0 }
}

fn axi(id: &str, expiry: i64) -> Fissure {
    Fissure {
        id: id.to_string(),
        activation: moment(1_000),
        expiry: moment(expiry),
        start_string: String::new(),
        active: true,
        node: "Xini (Eris)".to_string(),
        expired: false,
        eta: String::new(),
        mission_type: MissionType::Interception,
        mission_key: "Interception".to_string(),
        tier: Tier::Axi,
        tier_num: 4,
        enemy: Factions::Infested,
        enemy_key: Factions::Infested,
        is_storm: false,
        is_hard: false,
    }
}

fn lith(id: &str, expiry: i64) -> Fissure {
    let mut f = axi(id, expiry);
    f.tier = Tier::Lith;
    f.tier_num = 1;
    f
}

fn axi_only() -> Config {
    Config {
        mission_filter: vec![MissionType::Interception],
        tier_filter: vec![Tier::Axi],
        faction_filter: vec![Factions::Infested],
        void_storm_filter: ExclusivityFilter::Include,
        refresh_rate: 60,
        time_before_expiry_notification: 300,
    }
}

#[test]
fn latest_copies_the_suffix() {
    let all = vec![axi("1", 1), axi("2", 2), axi("3", 3)];
    let last_two = latest(&all, 2);
    assert_eq!(last_two.len(), 2);
    assert_eq!(last_two[0].id, "2");
    assert_eq!(last_two[1].id, "3");
    assert!(latest(&all, 0).is_empty());
    assert_eq!(latest(&all, 3).len(), 3);
}

#[test]
fn first_fetch_announces_a_passing_fissure() {
    let mut held = Vec::new();
    let tick = poll(&mut held, Some(vec![axi("1", 10_000)]), &axi_only(), &moment(9_000));
    assert_eq!(held.len(), 1);
    match tick.event {
        Event::Fissures { fissures, filtered_fissures, new_count } => {
            assert_eq!(new_count, 1);
            assert_eq!(fissures.len(), 1);
            assert_eq!(filtered_fissures.len(), 1);
            assert_eq!(filtered_fissures[0].id, "1");
        }
        _ => panic!("a changed snapshot is published"),
    }
    let planned = tick.notifications.unwrap();
    assert_eq!(planned.immediate.summary, "New Fissures");
    assert!(planned.immediate.body.contains("Axi Interception on Xini (Eris)"));
    assert_eq!(planned.immediate.body, "Axi Interception on Xini (Eris)");
    assert_eq!(planned.deferred.len(), 1);
    assert_eq!(planned.deferred[0].delay_nanos, 700_000_000_000);
}

#[test]
fn first_fetch_schedules_nothing_for_a_fissure_about_to_expire() {
    let mut held = Vec::new();
    let tick = poll(&mut held, Some(vec![axi("1", 9_200)]), &axi_only(), &moment(9_000));
    let planned = tick.notifications.unwrap();
    assert_eq!(planned.immediate.body, "Axi Interception on Xini (Eris)");
    assert!(planned.deferred.is_empty());
}

#[test]
fn removal_alone_still_publishes_the_snapshot() {
    let mut held = vec![axi("A", 10_000), axi("B", 10_000)];
    let tick = poll(&mut held, Some(vec![axi("B", 10_000)]), &axi_only(), &moment(9_000));
    assert_eq!(held.len(), 1);
    assert_eq!(held[0].id, "B");
    match tick.event {
        Event::Fissures { fissures, filtered_fissures, new_count } => {
            assert_eq!(new_count, 0);
            assert_eq!(fissures.len(), 1);
            assert_eq!(fissures[0].id, "B");
            assert_eq!(filtered_fissures.len(), 1);
        }
        _ => panic!("a removal is a change"),
    }
    assert!(tick.notifications.is_none());
}

#[test]
fn unchanged_fetch_publishes_no_new_fissures() {
    let mut held = vec![axi("A", 10_000)];
    let tick = poll(&mut held, Some(vec![axi("A", 10_000)]), &axi_only(), &moment(9_000));
    assert!(matches!(tick.event, Event::NoNewFissures));
    assert!(tick.notifications.is_none());
    assert_eq!(held.len(), 1);
}

#[test]
fn two_rounds_with_the_same_fetch_are_quiet_the_second_time() {
    let mut held = Vec::new();
    let fetched = vec![axi("1", 10_000), lith("2", 10_000)];
    let first = poll(&mut held, Some(fetched.clone()), &axi_only(), &moment(9_000));
    assert!(matches!(first.event, Event::Fissures { new_count: 2, .. }));
    let second = poll(&mut held, Some(fetched), &axi_only(), &moment(9_060));
    assert!(matches!(second.event, Event::NoNewFissures));
    assert!(second.notifications.is_none());
    assert_eq!(held.len(), 2);
}

#[test]
fn failed_fetch_keeps_the_snapshot_and_publishes_an_error() {
    let mut held = vec![axi("A", 10_000), axi("B", 10_000)];
    let tick = poll(&mut held, None, &axi_only(), &moment(9_000));
    assert_eq!(held.len(), 2);
    assert_eq!(held[0].id, "A");
    assert_eq!(held[1].id, "B");
    match tick.event {
        Event::Error(message) => assert_eq!(message, "Failed to fetch fissures"),
        _ => panic!("a failed fetch is published as an error"),
    }
    assert!(tick.notifications.is_none());
}

#[test]
fn added_fissures_that_do_not_pass_are_not_announced() {
    let mut held = vec![axi("A", 10_000)];
    let tick = poll(
        &mut held,
        Some(vec![axi("A", 10_000), lith("L", 10_000)]),
        &axi_only(),
        &moment(9_000),
    );
    assert!(tick.notifications.is_none());
    match tick.event {
        Event::Fissures { fissures, filtered_fissures, new_count } => {
            assert_eq!(new_count, 1);
            assert_eq!(fissures.len(), 2);
            assert_eq!(filtered_fissures.len(), 1);
            assert_eq!(filtered_fissures[0].id, "A");
        }
        _ => panic!("an addition is a change"),
    }
}

#[test]
fn only_the_added_fissures_are_announced() {
    let mut held = vec![axi("A", 10_000)];
    let mut other = axi("C", 12_000);
    other.node = "Ur (Uranus)".to_string();
    let tick = poll(
        &mut held,
        Some(vec![axi("A", 10_000), lith("L", 10_000), other]),
        &axi_only(),
        &moment(9_000),
    );
    let planned = tick.notifications.unwrap();
    assert_eq!(planned.immediate.body, "Axi Interception on Ur (Uranus)");
    assert_eq!(planned.deferred.len(), 1);
    assert_eq!(planned.deferred[0].delay_nanos, 2_700_000_000_000);
    match tick.event {
        Event::Fissures { fissures, filtered_fissures, new_count } => {
            assert_eq!(new_count, 2);
            let ids: Vec<&str> = fissures.iter().map(|f| f.id.as_str()).collect();
            assert_eq!(ids, vec!["A", "L", "C"]);
            let ids: Vec<&str> = filtered_fissures.iter().map(|f| f.id.as_str()).collect();
            assert_eq!(ids, vec!["A", "C"]);
        }
        _ => panic!("an addition is a change"),
    }
}

#[test]
fn empty_fetch_after_a_snapshot_removes_everything() {
    let mut held = vec![axi("A", 10_000), axi("B", 10_000)];
    let tick = poll(&mut held, Some(Vec::new()), &axi_only(), &moment(9_000));
    assert!(held.is_empty());
    match tick.event {
        Event::Fissures { fissures, filtered_fissures, new_count } => {
            assert_eq!(new_count, 0);
            assert!(fissures.is_empty());
            assert!(filtered_fissures.is_empty());
        }
        _ => panic!("a removal is a change"),
    }
}

#[test]
fn removal_after_scheduling_plans_nothing_more() {
    let mut held = Vec::new();
    let first = poll(&mut held, Some(vec![axi("1", 10_000)]), &axi_only(), &moment(9_000));
    assert_eq!(first.notifications.unwrap().deferred.len(), 1);
    // the fissure goes away before its expiry notification is due
    let second = poll(&mut held, Some(Vec::new()), &axi_only(), &moment(9_060));
    assert!(held.is_empty());
    assert!(second.notifications.is_none());
    assert!(matches!(second.event, Event::Fissures { new_count: 0, .. }));
}

#[test]
fn a_fissure_that_returns_is_announced_again() {
    let mut held = Vec::new();
    poll(&mut held, Some(vec![axi("1", 10_000)]), &axi_only(), &moment(9_000));
    poll(&mut held, Some(Vec::new()), &axi_only(), &moment(9_060));
    let third = poll(&mut held, Some(vec![axi("1", 10_000)]), &axi_only(), &moment(9_120));
    let planned = third.notifications.unwrap();
    assert_eq!(planned.deferred.len(), 1);
    assert_eq!(planned.deferred[0].delay_nanos, 580_000_000_000);
}
