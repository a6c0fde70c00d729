use reapers_wf::filters::{Factions, Tier};
use reapers_wf::mission_type::MissionType;
use reapers_wf::models::{Fissure, Timestamp};
use reapers_wf::reconcile::{contains_id, update_fissures};

fn entry(id: &str, node: &str) -> Fissure {
    Fissure {
        id: id.to_string(),
        activation: Timestamp { unix_seconds: 1_700_000_000, nanosecond: 0, offset_seconds: 0 },
        expiry: Timestamp { unix_seconds: 1_700_003_600, nanosecond: 0, offset_seconds: 0 },
        start_string: String::new(),
        active: true,
        node: node.to_string(),
        expired: false,
        eta: String::new(),
        mission_type: MissionType::Capture,
        mission_key: "Capture".to_string(),
        tier: Tier::Lith,
        tier_num: 1,
        enemy: Factions::Corpus,
        enemy_key: Factions::Corpus,
        is_storm: false,
        is_hard: false,
    }
}

fn ids_of(fissures: &Vec<Fissure>) -> Vec<String> {
    fissures.iter().map(|f| f.id.clone()).collect()
}

#[test]
fn contains_id_finds_by_id_only() {
    let held = vec![entry("1", "x"), entry("2", "y")];
    assert!(contains_id(&held, &"2".to_string()));
    assert!(!contains_id(&held, &"3".to_string()));
    assert!(!contains_id(&Vec::new(), &"1".to_string()));
}

#[test]
fn reconcile_adds_and_removes_by_id() {
    let mut held = vec![entry("1", "a"), entry("2", "b"), entry("3", "c")];
    let current = vec![entry("4", "d"), entry("2", "b"), entry("5", "e")];
    let (added, removed) = update_fissures(&mut held, current);
    assert_eq!(added, 2);
    assert_eq!(removed, 2);
    assert_eq!(ids_of(&held), vec!["2", "4", "5"]);
    // |old'| = |old| - |removed| + |added|
    assert_eq!(held.len(), 3 - 2 + 2);
}

#[test]
fn reconcile_keeps_untouched_order_and_appends_added() {
    let mut held = vec![entry("a", ""), entry("b", ""), entry("c", ""), entry("d", "")];
    let current = vec![entry("z", ""), entry("d", ""), entry("y", ""), entry("b", "")];
    let (added, removed) = update_fissures(&mut held, current);
    assert_eq!((added, removed), (2, 2));
    assert_eq!(ids_of(&held), vec!["b", "d", "z", "y"]);
}

#[test]
fn reconcile_against_itself_changes_nothing() {
    let mut held = vec![entry("1", "a"), entry("2", "b")];
    let same = held.clone();
    let (added, removed) = update_fissures(&mut held, same);
    assert_eq!((added, removed), (0, 0));
    assert_eq!(ids_of(&held), vec!["1", "2"]);
}

#[test]
fn reconcile_twice_with_unchanged_fetch_is_quiet() {
    let mut held = vec![entry("1", "a"), entry("2", "b")];
    let fetched = vec![entry("2", "b"), entry("3", "c")];
    let first = update_fissures(&mut held, fetched.clone());
    assert_eq!(first, (1, 1));
    let after_first = ids_of(&held);
    let second = update_fissures(&mut held, fetched);
    assert_eq!(second, (0, 0));
    assert_eq!(ids_of(&held), after_first);
}

#[test]
fn reconcile_from_empty_takes_everything() {
    let mut held = Vec::new();
    let (added, removed) = update_fissures(&mut held, vec![entry("1", "a"), entry("2", "b")]);
    assert_eq!((added, removed), (2, 0));
    assert_eq!(ids_of(&held), vec!["1", "2"]);
}

#[test]
fn reconcile_with_empty_fetch_removes_everything() {
    let mut held = vec![entry("1", "a"), entry("2", "b")];
    let (added, removed) = update_fissures(&mut held, Vec::new());
    assert_eq!((added, removed), (0, 2));
    assert!(held.is_empty());
}

#[test]
fn reconcile_never_refreshes_a_persisting_fissure() {
    let mut held = vec![entry("1", "old node")];
    let (added, removed) = update_fissures(&mut held, vec![entry("1", "new node")]);
    assert_eq!((added, removed), (0, 0));
    assert_eq!(held[0].node, "old node");
}

#[test]
fn reconcile_takes_a_repeated_fetched_id_once() {
    let mut held = vec![entry("1", "a")];
    let current = vec![entry("2", "first"), entry("2", "second"), entry("1", "a")];
    let (added, removed) = update_fissures(&mut held, current);
    assert_eq!((added, removed), (1, 0));
    assert_eq!(ids_of(&held), vec!["1", "2"]);
    assert_eq!(held[1].node, "first");
}

#[test]
fn reconcile_removes_every_held_copy_of_a_gone_id() {
    let mut held = vec![entry("1", "a"), entry("2", "b"), entry("1", "c")];
    let (added, removed) = update_fissures(&mut held, vec![entry("2", "b")]);
    assert_eq!((added, removed), (0, 2));
    assert_eq!(ids_of(&held), vec!["2"]);
}
