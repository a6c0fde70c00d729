use reapers_wf::filters::{Factions, Tier};
use reapers_wf::mission_type::MissionType;
use reapers_wf::models::{Fissure, Timestamp};
use reapers_wf::notifications::{spawn_expiry_notification, spawn_notifications};

fn at(unix_seconds: i64, nanosecond: u32) -> Timestamp {
    Timestamp { unix_seconds, nanosecond, offset_seconds: 0 }
}

fn expiring(id: &str, tier: Tier, is_hard: bool, expiry: Timestamp) -> Fissure {
    Fissure {
        id: id.to_string(),
        activation: at(1_000, 0),
        expiry,
        start_string: String::new(),
        active: true,
        node: "Mot (Void)".to_string(),
        expired: false,
        eta: String::new(),
        mission_type: MissionType::Survival,
        mission_key: "Survival".to_string(),
        tier,
        tier_num: 4,
        enemy: Factions::Orokin,
        enemy_key: Factions::Orokin,
        is_storm: false,
        is_hard,
    }
}

#[test]
fn expiry_notification_waits_until_lead_before_expiry() {
    let f = expiring("1", Tier::Axi, false, at(10_000, 0));
    let planned = spawn_expiry_notification(&f, 300, &at(9_000, 0)).unwrap();
    // 10_000 - 300 - 9_000 seconds
    assert_eq!(planned.delay_nanos, 700_000_000_000);
    assert_eq!(planned.notification.summary, "Fissure is Expiring In 300 Seconds");
    assert_eq!(planned.notification.body, "Axi Survival on Mot (Void)");
}

#[test]
fn expiry_notification_counts_nanoseconds() {
    let f = expiring("1", Tier::Axi, false, at(10_000, 250_000_000));
    let planned = spawn_expiry_notification(&f, 1, &at(9_998, 750_000_000)).unwrap();
    assert_eq!(planned.delay_nanos, 500_000_000);
    assert_eq!(planned.notification.summary, "Fissure is Expiring In 1 Seconds");
}

#[test]
fn expiry_notification_ignores_the_display_offset() {
    let mut f = expiring("1", Tier::Axi, false, at(10_000, 0));
    f.expiry.offset_seconds = 7_200;
    let now = Timestamp { unix_seconds: 9_000, nanosecond: 0, offset_seconds: -3_600 };
    let planned = spawn_expiry_notification(&f, 0, &now).unwrap();
    assert_eq!(planned.delay_nanos, 1_000_000_000_000);
    assert_eq!(planned.notification.summary, "Fissure is Expiring In 0 Seconds");
}

#[test]
fn no_expiry_notification_when_the_moment_has_passed() {
    let f = expiring("1", Tier::Axi, false, at(10_000, 0));
    assert!(spawn_expiry_notification(&f, 300, &at(9_800, 0)).is_none());
    assert!(spawn_expiry_notification(&f, 300, &at(20_000, 0)).is_none());
}

#[test]
fn no_expiry_notification_at_exactly_the_moment() {
    let f = expiring("1", Tier::Axi, false, at(10_000, 0));
    assert!(spawn_expiry_notification(&f, 300, &at(9_700, 0)).is_none());
    let just_before = spawn_expiry_notification(&f, 300, &at(9_699, 999_999_999)).unwrap();
    assert_eq!(just_before.delay_nanos, 1);
}

#[test]
fn expiry_notification_with_the_largest_lead_is_never_due() {
    let f = expiring("1", Tier::Axi, false, at(i64::MAX, 999_999_999));
    assert!(spawn_expiry_notification(&f, u64::MAX, &at(0, 0)).is_none());
    let far = spawn_expiry_notification(&f, 0, &at(i64::MIN, 0)).unwrap();
    assert_eq!(far.delay_nanos, 18_446_744_073_709_551_615_999_999_999);
}

#[test]
fn batch_notification_lists_every_fissure_on_its_own_line() {
    let a = expiring("1", Tier::Axi, false, at(10_000, 0));
    let b = expiring("2", Tier::Lith, true, at(20_000, 0));
    let planned = spawn_notifications(&vec![&a, &b], 300, &at(9_000, 0));
    assert_eq!(planned.immediate.summary, "New Fissures");
    assert_eq!(planned.immediate.body, "Axi Survival on Mot (Void)\nSP Lith Survival on Mot (Void)");
    assert_eq!(planned.deferred.len(), 2);
    assert_eq!(planned.deferred[0].delay_nanos, 700_000_000_000);
    assert_eq!(planned.deferred[0].notification.body, "Axi Survival on Mot (Void)");
    assert_eq!(planned.deferred[1].delay_nanos, 10_700_000_000_000);
    assert_eq!(planned.deferred[1].notification.body, "SP Lith Survival on Mot (Void)");
    assert_eq!(planned.deferred[1].notification.summary, "Fissure is Expiring In 300 Seconds");
}

#[test]
fn batch_skips_deferred_notifications_that_are_past() {
    let a = expiring("1", Tier::Axi, false, at(9_100, 0));
    let b = expiring("2", Tier::Lith, false, at(20_000, 0));
    let c = expiring("3", Tier::Neo, false, at(9_300, 0));
    let planned = spawn_notifications(&vec![&a, &b, &c], 300, &at(9_000, 0));
    assert_eq!(
        planned.immediate.body,
        "Axi Survival on Mot (Void)\nLith Survival on Mot (Void)\nNeo Survival on Mot (Void)"
    );
    assert_eq!(planned.deferred.len(), 1);
    assert_eq!(planned.deferred[0].notification.body, "Lith Survival on Mot (Void)");
}

#[test]
fn batch_of_one_has_no_line_break() {
    let a = expiring("1", Tier::Requiem, false, at(10_000, 0));
    let planned = spawn_notifications(&vec![&a], 60, &at(0, 0));
    assert_eq!(planned.immediate.body, "Requiem Survival on Mot (Void)");
    assert_eq!(planned.deferred.len(), 1);
    assert_eq!(planned.deferred[0].delay_nanos, 9_940_000_000_000);
    assert_eq!(planned.deferred[0].notification.summary, "Fissure is Expiring In 60 Seconds");
}
