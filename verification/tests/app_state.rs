use reapers_wf::app::{
    select_next, select_previous, App, ConfigLoad, StatefulList, TabsState,
};
use reapers_wf::filters::{Factions, Tier};
use reapers_wf::fissure_watcher::{Event, FissureWatcher};
use reapers_wf::mission_type::MissionType;
use reapers_wf::models::{Fissure, Timestamp};

fn clock_time(unix_seconds: i64) -> Timestamp {
    Timestamp { unix_seconds, nanosecond: 0, offset_seconds: 0 }
}

fn listed(id: &str, tier: Tier) -> Fissure {
    Fissure {
        id: id.to_string(),
        activation: clock_time(1_699_996_400),
        expiry: clock_time(1_700_000_000),
        start_string: String::new(),
        active: true,
        node: "Ani (Void)".to_string(),
        expired: false,
        eta: String::new(),
        mission_type: MissionType::Survival,
        mission_key: "Survival".to_string(),
        tier,
        tier_num: 2,
        enemy: Factions::Orokin,
        enemy_key: Factions::Orokin,
        is_storm: false,
        is_hard: false,
    }
}

#[test]
fn tabs_start_at_the_first_and_wrap_around() {
    let mut tabs = TabsState::new(vec!["Console", "Fissures", "Settings"]);
    assert_eq!(tabs.index, 0);
    tabs.next();
    assert_eq!(tabs.index, 1);
    tabs.next();
    tabs.next();
    assert_eq!(tabs.index, 0);
    tabs.previous();
    assert_eq!(tabs.index, 2);
    tabs.previous();
    assert_eq!(tabs.index, 1);
    assert_eq!(tabs.titles, vec!["Console", "Fissures", "Settings"]);
}

#[test]
fn selection_moves_down_and_wraps() {
    assert_eq!(select_next(None, 3), 0);
    assert_eq!(select_next(Some(0), 3), 1);
    assert_eq!(select_next(Some(1), 3), 2);
    assert_eq!(select_next(Some(2), 3), 0);
    assert_eq!(select_next(Some(7), 3), 0);
    assert_eq!(select_next(None, 0), 0);
    assert_eq!(select_next(Some(0), 1), 0);
}

#[test]
fn selection_moves_up_and_wraps() {
    assert_eq!(select_previous(None, 3), 0);
    assert_eq!(select_previous(Some(0), 3), 2);
    assert_eq!(select_previous(Some(2), 3), 1);
    assert_eq!(select_previous(Some(7), 3), 6);
    assert_eq!(select_previous(Some(1), 0), 0);
    assert_eq!(select_previous(None, 0), 0);
}

#[test]
fn stateful_list_selects_within_its_lines() {
    let mut list = StatefulList {
        selected: None,
        list: vec!["one".to_string(), "two".to_string()],
    };
    list.next();
    assert_eq!(list.selected, Some(0));
    list.next();
    assert_eq!(list.selected, Some(1));
    list.next();
    assert_eq!(list.selected, Some(0));
    list.previous();
    assert_eq!(list.selected, Some(1));
    assert_eq!(list.list.len(), 2);
}

#[test]
fn config_load_messages() {
    assert_eq!(ConfigLoad::Loaded.to_message(), "Loaded config file.");
    assert_eq!(
        ConfigLoad::Malformed.to_message(),
        "Error parsing config file, if you have edited it, please fix it, otherwise delete it and restart the program.\nContinuing with default config."
    );
    assert_eq!(
        ConfigLoad::Unreadable.to_message(),
        "Error loading config file, creating and using default config file."
    );
    assert!(!ConfigLoad::Loaded.uses_default());
    assert!(ConfigLoad::Malformed.uses_default());
    assert!(ConfigLoad::Unreadable.uses_default());
    assert!(!ConfigLoad::Loaded.writes_default_file());
    assert!(!ConfigLoad::Malformed.writes_default_file());
    assert!(ConfigLoad::Unreadable.writes_default_file());
}

#[test]
fn app_starts_on_the_console_with_two_lines() {
    let app = App::new(ConfigLoad::Loaded);
    assert!(!app.should_quit);
    assert_eq!(app.tabs.index, 0);
    assert_eq!(app.tabs.titles, vec!["Console", "Fissures", "Settings"]);
    assert_eq!(
        app.console_log.list,
        vec!["Starting Reaper's Warframe Tools", "Loaded config file."]
    );
    assert_eq!(app.console_log.selected, None);
    assert_eq!(app.current_cmd, "");
    assert!(app.fissure_watcher.fissures.is_empty());
    assert!(app.fissure_watcher.table_rows.is_empty());
}

#[test]
fn typing_quit_and_enter_ends_the_application() {
    let mut app = App::new(ConfigLoad::Loaded);
    for c in "quit".chars() {
        app.on_key(c);
    }
    assert_eq!(app.current_cmd, "quit");
    assert!(!app.should_quit);
    app.on_enter();
    assert!(app.should_quit);
    assert_eq!(app.current_cmd, "");
}

#[test]
fn other_commands_do_nothing() {
    let mut app = App::new(ConfigLoad::Loaded);
    for c in "quit ".chars() {
        app.on_key(c);
    }
    app.on_enter();
    assert!(!app.should_quit);
    assert_eq!(app.current_cmd, "");
    app.on_enter();
    assert!(!app.should_quit);
}

#[test]
fn backspace_removes_the_last_character() {
    let mut app = App::new(ConfigLoad::Loaded);
    app.on_key('q');
    app.on_key('x');
    app.on_backspace();
    assert_eq!(app.current_cmd, "q");
    app.on_backspace();
    app.on_backspace();
    assert_eq!(app.current_cmd, "");
}

#[test]
fn keys_reach_the_command_on_the_console_tab_only() {
    let mut app = App::new(ConfigLoad::Loaded);
    app.on_key('a');
    app.on_right();
    assert_eq!(app.tabs.index, 1);
    app.on_key('b');
    app.on_backspace();
    app.on_enter();
    assert_eq!(app.current_cmd, "a");
    app.on_left();
    app.on_left();
    assert_eq!(app.tabs.index, 2);
    app.on_key('c');
    assert_eq!(app.current_cmd, "a");
}

#[test]
fn escape_ends_the_application() {
    let mut app = App::new(ConfigLoad::Malformed);
    app.on_esc();
    assert!(app.should_quit);
}

#[test]
fn exec_cmd_reads_the_whole_command() {
    let mut app = App::new(ConfigLoad::Loaded);
    app.current_cmd = "qui".to_string();
    app.exec_cmd();
    assert!(!app.should_quit);
    app.current_cmd = "quit".to_string();
    app.exec_cmd();
    assert!(app.should_quit);
    assert_eq!(app.current_cmd, "quit");
}

#[test]
fn up_and_down_move_the_selection_of_the_shown_tab() {
    let mut app = App::new(ConfigLoad::Loaded);
    app.on_down();
    assert_eq!(app.console_log.selected, Some(0));
    app.on_down();
    assert_eq!(app.console_log.selected, Some(1));
    app.on_up();
    assert_eq!(app.console_log.selected, Some(0));
    app.on_up();
    assert_eq!(app.console_log.selected, Some(1));
    assert_eq!(app.fissure_watcher.selected, None);
    app.on_right();
    app.fissure_watcher.update_fissures(
        vec![listed("1", Tier::Meso), listed("2", Tier::Lith)],
        vec![listed("1", Tier::Meso), listed("2", Tier::Lith)],
    );
    app.on_down();
    assert_eq!(app.fissure_watcher.selected, Some(0));
    app.on_up();
    assert_eq!(app.fissure_watcher.selected, Some(1));
    assert_eq!(app.console_log.selected, Some(1));
    app.on_right();
    app.on_down();
    app.on_up();
    assert_eq!(app.fissure_watcher.selected, Some(1));
    assert_eq!(app.console_log.selected, Some(1));
}

#[test]
fn update_logs_each_event_with_the_time() {
    let mut app = App::new(ConfigLoad::Loaded);
    app.update(Event::NoNewFissures, &clock_time(1_700_000_000));
    assert_eq!(app.console_log.list[2], "[22:13:20] No new fissures");
    app.update(Event::Error("Failed to fetch fissures".to_string()), &clock_time(1_700_000_060));
    assert_eq!(app.console_log.list[3], "[22:14:20] Error: Failed to fetch fissures");
    app.update(
        Event::Fissures {
            fissures: vec![listed("1", Tier::Meso), listed("2", Tier::Lith)],
            filtered_fissures: vec![listed("1", Tier::Meso)],
            new_count: 2,
        },
        &clock_time(1_700_000_120),
    );
    assert_eq!(app.console_log.list[4], "[22:15:20] 2 new fissures");
    assert_eq!(app.console_log.list.len(), 5);
    assert_eq!(app.fissure_watcher.fissures.len(), 2);
    assert_eq!(app.fissure_watcher.filtered_fissures.len(), 1);
    assert_eq!(
        app.fissure_watcher.table_rows,
        vec![vec!["", "Meso", "Survival", "Ani (Void)", "Orokin", "22:13:20"]]
    );
}

#[test]
fn watcher_rebuilds_its_rows_from_the_filtered_fissures() {
    let mut watcher = FissureWatcher::new();
    assert!(watcher.table_rows.is_empty());
    watcher.update_fissures(
        vec![listed("1", Tier::Meso), listed("2", Tier::Lith)],
        vec![listed("2", Tier::Lith)],
    );
    assert_eq!(watcher.fissures.len(), 2);
    assert_eq!(
        watcher.table_rows,
        vec![vec!["", "Lith", "Survival", "Ani (Void)", "Orokin", "22:13:20"]]
    );
    watcher.update_filtered_fissures(Vec::new());
    assert_eq!(watcher.fissures.len(), 2);
    assert!(watcher.filtered_fissures.is_empty());
    assert!(watcher.table_rows.is_empty());
}

#[test]
fn watcher_selection_wraps_over_the_filtered_fissures() {
    let mut watcher = FissureWatcher::new();
    watcher.update_filtered_fissures(vec![
        listed("1", Tier::Meso),
        listed("2", Tier::Lith),
        listed("3", Tier::Axi),
    ]);
    watcher.next();
    assert_eq!(watcher.selected, Some(0));
    watcher.previous();
    assert_eq!(watcher.selected, Some(2));
    watcher.next();
    assert_eq!(watcher.selected, Some(0));
    watcher.next();
    assert_eq!(watcher.selected, Some(1));
}
