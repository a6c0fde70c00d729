//! The state of the terminal application and how keys and events change it.

use vstd::prelude::*;
use vstd::string::StringExecFns;

use crate::fissure_watcher::{Event, FissureWatcher};
use crate::models::{clock_text, Timestamp};
use crate::text::{decimal, decimal_string, str_eq};

verus! {

pub struct TabsState<'a> {
    pub titles: Vec<&'a str>,
    pub index: usize,
}

impl<'a> TabsState<'a> {
    pub fn new(titles: Vec<&'a str>) -> (tabs: TabsState<'a>)
        ensures
            tabs.titles == titles,
            tabs.index == 0,
    {
        TabsState { titles, index: 0 }
    }

    /// Moves to the tab on the right, and from the last tab to the first.
    pub fn next(&mut self)
        requires
            old(self).titles.len() > 0,
            old(self).index < usize::MAX,
        ensures
            final(self).titles == old(self).titles,
            final(self).index == (old(self).index + 1) % (old(self).titles@.len() as int),
    {
        self.index = (self.index + 1) % self.titles.len();
    }

    /// Moves to the tab on the left, and from the first tab to the last.
    pub fn previous(&mut self)
        requires
            old(self).index > 0 || old(self).titles.len() > 0,
        ensures
            final(self).titles == old(self).titles,
            final(self).index == if old(self).index > 0 {
                old(self).index - 1
            } else {
                old(self).titles@.len() - 1
            },
    {
        if self.index > 0 {
            self.index -= 1;
        } else {
            self.index = self.titles.len() - 1;
        }
    }
}

/// The entry selected after moving down in a list of `len` entries: the one
/// below, the first one from the last one, and the first one where none was
/// selected.
pub open spec fn next_index(selected: Option<usize>, len: usize) -> int {
    match selected {
        Some(i) => if i >= len - 1 {
            0
        } else {
            i + 1
        },
        None => 0,
    }
}

/// The entry selected after moving up in a list of `len` entries: the one
/// above, the last one from the first one, and the first one where none was
/// selected.
pub open spec fn previous_index(selected: Option<usize>, len: usize) -> int {
    match selected {
        Some(i) => if i == 0 {
            len - 1
        } else {
            i - 1
        },
        None => 0,
    }
}

pub fn select_next(selected: Option<usize>, len: usize) -> (i: usize)
    requires
        selected is Some ==> len > 0,
    ensures
        i == next_index(selected, len),
{
    match selected {
        Some(i) => {
            if i >= len - 1 {
                0
            } else {
                i + 1
            }
        },
        None => 0,
    }
}

pub fn select_previous(selected: Option<usize>, len: usize) -> (i: usize)
    requires
        selected == Some(0usize) ==> len > 0,
    ensures
        i == previous_index(selected, len),
{
    match selected {
        Some(i) => {
            if i == 0 {
                len - 1
            } else {
                i - 1
            }
        },
        None => 0,
    }
}

/// A list of lines with at most one of them selected.
pub struct StatefulList {
    pub selected: Option<usize>,
    pub list: Vec<String>,
}

impl StatefulList {
    pub fn next(&mut self)
        requires
            old(self).selected is Some ==> old(self).list.len() > 0,
        ensures
            final(self).list == old(self).list,
            final(self).selected == Some(
                next_index(old(self).selected, old(self).list.len()) as usize,
            ),
    {
        let i = select_next(self.selected, self.list.len());
        self.selected = Some(i);
    }

    pub fn previous(&mut self)
        requires
            old(self).selected == Some(0usize) ==> old(self).list.len() > 0,
        ensures
            final(self).list == old(self).list,
            final(self).selected == Some(
                previous_index(old(self).selected, old(self).list.len()) as usize,
            ),
    {
        let i = select_previous(self.selected, self.list.len());
        self.selected = Some(i);
    }
}

/// How loading the configuration file went.
#[derive(Debug, Clone, Copy, PartialEq, Eq, Structural)]
pub enum ConfigLoad {
    /// The file was read and understood.
    Loaded,
    /// The file was read and could not be understood.
    Malformed,
    /// The file could not be read.
    Unreadable,
}

impl ConfigLoad {
    /// The line that tells the user how loading went.
    pub open spec fn message(self) -> Seq<char> {
        match self {
            ConfigLoad::Loaded => "Loaded config file."@,
            ConfigLoad::Malformed => "Error parsing config file, if you have edited it, please fix it, otherwise delete it and restart the program.\nContinuing with default config."@,
            ConfigLoad::Unreadable => "Error loading config file, creating and using default config file."@,
        }
    }

    /// Whether the default configuration is used in place of the file's.
    pub fn uses_default(&self) -> (default: bool)
        ensures
            default == (*self != ConfigLoad::Loaded),
    {
        match self {
            ConfigLoad::Loaded => false,
            _ => true,
        }
    }

    /// Whether a file with the default configuration is to be written.
    pub fn writes_default_file(&self) -> (write: bool)
        ensures
            write == (*self == ConfigLoad::Unreadable),
    {
        match self {
            ConfigLoad::Unreadable => true,
            _ => false,
        }
    }

    pub fn to_message(&self) -> (text: String)
        ensures
            text@ == self.message(),
    {
        match self {
            ConfigLoad::Loaded => String::from_str("Loaded config file."),
            ConfigLoad::Malformed => String::from_str(
                "Error parsing config file, if you have edited it, please fix it, otherwise delete it and restart the program.\nContinuing with default config.",
            ),
            ConfigLoad::Unreadable => String::from_str(
                "Error loading config file, creating and using default config file.",
            ),
        }
    }
}

/// The line that the console logs for an event received at the time of day
/// `time_stamp`.
pub open spec fn log_line(event: Event, time_stamp: Seq<char>) -> Seq<char> {
    "["@ + time_stamp + "] "@ + match event {
        Event::Fissures { fissures, filtered_fissures, new_count } => decimal(new_count as nat)
            + " new fissures"@,
        Event::Error(e) => "Error: "@ + e@,
        Event::NoNewFissures => "No new fissures"@,
    }
}

pub struct App<'a> {
    pub should_quit: bool,
    pub tabs: TabsState<'a>,
    pub console_log: StatefulList,
    pub current_cmd: String,
    pub fissure_watcher: FissureWatcher,
}

impl<'a> App<'a> {
    /// The application as it starts: on the console tab, with the greeting
    /// and the outcome of loading the configuration in the log.
    pub fn new(config_load: ConfigLoad) -> (app: App<'a>)
        ensures
            !app.should_quit,
            app.tabs.index == 0,
            app.tabs.titles@.len() == 3,
            app.tabs.titles@[0]@ == "Console"@,
            app.tabs.titles@[1]@ == "Fissures"@,
            app.tabs.titles@[2]@ == "Settings"@,
            app.console_log.selected is None,
            app.console_log.list@.len() == 2,
            app.console_log.list@[0]@ == "Starting Reaper's Warframe Tools"@,
            app.console_log.list@[1]@ == config_load.message(),
            app.current_cmd@ == Seq::<char>::empty(),
            app.fissure_watcher.is_empty(),
    {
        let mut list: Vec<String> = Vec::new();
        list.push(String::from_str("Starting Reaper's Warframe Tools"));
        list.push(config_load.to_message());
        let mut titles: Vec<&'a str> = Vec::new();
        titles.push("Console");
        titles.push("Fissures");
        titles.push("Settings");
        App {
            should_quit: false,
            tabs: TabsState::new(titles),
            console_log: StatefulList { selected: None, list },
            current_cmd: String::new(),
            fissure_watcher: FissureWatcher::new(),
        }
    }

    /// Carries out the command that was typed: `quit` ends the application,
    /// anything else does nothing.
    pub fn exec_cmd(&mut self)
        ensures
            final(self).should_quit == (old(self).should_quit || old(self).current_cmd@ == "quit"@),
            final(self).tabs == old(self).tabs,
            final(self).console_log == old(self).console_log,
            final(self).current_cmd == old(self).current_cmd,
            final(self).fissure_watcher == old(self).fissure_watcher,
    {
        if str_eq(self.current_cmd.as_str(), "quit") {
            self.should_quit = true;
        }
    }

    pub fn on_up(&mut self)
        requires
            old(self).tabs.index == 0 && old(self).console_log.selected == Some(0usize)
                ==> old(self).console_log.list.len() > 0,
            old(self).tabs.index == 1 && old(self).fissure_watcher.selected == Some(0usize)
                ==> old(self).fissure_watcher.filtered_fissures.len() > 0,
        ensures
            final(self).should_quit == old(self).should_quit,
            final(self).tabs == old(self).tabs,
            final(self).current_cmd == old(self).current_cmd,
            final(self).console_log.list == old(self).console_log.list,
            final(self).fissure_watcher.same_table(old(self).fissure_watcher),
            final(self).console_log.selected == if old(self).tabs.index == 0 {
                Some(
                    previous_index(old(self).console_log.selected, old(self).console_log.list.len())
                        as usize,
                )
            } else {
                old(self).console_log.selected
            },
            final(self).fissure_watcher.selected == if old(self).tabs.index == 1 {
                Some(
                    previous_index(
                        old(self).fissure_watcher.selected,
                        old(self).fissure_watcher.filtered_fissures.len(),
                    ) as usize,
                )
            } else {
                old(self).fissure_watcher.selected
            },
    {
        if self.tabs.index == 0 {
            self.console_log.previous();
        } else if self.tabs.index == 1 {
            self.fissure_watcher.previous();
        }
    }

    pub fn on_down(&mut self)
        requires
            old(self).tabs.index == 0 && old(self).console_log.selected is Some
                ==> old(self).console_log.list.len() > 0,
            old(self).tabs.index == 1 && old(self).fissure_watcher.selected is Some
                ==> old(self).fissure_watcher.filtered_fissures.len() > 0,
        ensures
            final(self).should_quit == old(self).should_quit,
            final(self).tabs == old(self).tabs,
            final(self).current_cmd == old(self).current_cmd,
            final(self).console_log.list == old(self).console_log.list,
            final(self).fissure_watcher.same_table(old(self).fissure_watcher),
            final(self).console_log.selected == if old(self).tabs.index == 0 {
                Some(
                    next_index(old(self).console_log.selected, old(self).console_log.list.len())
                        as usize,
                )
            } else {
                old(self).console_log.selected
            },
            final(self).fissure_watcher.selected == if old(self).tabs.index == 1 {
                Some(
                    next_index(
                        old(self).fissure_watcher.selected,
                        old(self).fissure_watcher.filtered_fissures.len(),
                    ) as usize,
                )
            } else {
                old(self).fissure_watcher.selected
            },
    {
        if self.tabs.index == 0 {
            self.console_log.next();
        } else if self.tabs.index == 1 {
            self.fissure_watcher.next();
        }
    }

    pub fn on_right(&mut self)
        requires
            old(self).tabs.titles.len() > 0,
            old(self).tabs.index < usize::MAX,
        ensures
            final(self).tabs.titles == old(self).tabs.titles,
            final(self).tabs.index == (old(self).tabs.index + 1) % (old(self).tabs.titles@.len()
                as int),
            final(self).should_quit == old(self).should_quit,
            final(self).console_log == old(self).console_log,
            final(self).current_cmd == old(self).current_cmd,
            final(self).fissure_watcher == old(self).fissure_watcher,
    {
        self.tabs.next();
    }

    pub fn on_left(&mut self)
        requires
            old(self).tabs.index > 0 || old(self).tabs.titles.len() > 0,
        ensures
            final(self).tabs.titles == old(self).tabs.titles,
            final(self).tabs.index == if old(self).tabs.index > 0 {
                old(self).tabs.index - 1
            } else {
                old(self).tabs.titles@.len() - 1
            },
            final(self).should_quit == old(self).should_quit,
            final(self).console_log == old(self).console_log,
            final(self).current_cmd == old(self).current_cmd,
            final(self).fissure_watcher == old(self).fissure_watcher,
    {
        self.tabs.previous();
    }

    /// A typed character goes to the end of the command, on the console tab
    /// only.
    pub fn on_key(&mut self, c: char)
        ensures
            final(self).current_cmd@ == if old(self).tabs.index == 0 {
                old(self).current_cmd@.push(c)
            } else {
                old(self).current_cmd@
            },
            final(self).should_quit == old(self).should_quit,
            final(self).tabs == old(self).tabs,
            final(self).console_log == old(self).console_log,
            final(self).fissure_watcher == old(self).fissure_watcher,
    {
        if self.tabs.index == 0 {
            self.current_cmd.push(c);
        }
    }

    /// Takes in one event of the fissure watcher, received at `now`: a changed
    /// snapshot replaces what the fissure table shows, and every event is
    /// logged with the time of day.
    pub fn update(&mut self, event: Event, now: &Timestamp)
        requires
            now.wf(),
            event matches Event::Fissures { fissures, filtered_fissures, new_count } ==> forall|
                i: int,
            |
                0 <= i < filtered_fissures.len() ==> (#[trigger] filtered_fissures@[i]).expiry.wf(),
        ensures
            final(self).should_quit == old(self).should_quit,
            final(self).tabs == old(self).tabs,
            final(self).current_cmd == old(self).current_cmd,
            final(self).console_log.selected == old(self).console_log.selected,
            final(self).console_log.list@.len() == old(self).console_log.list@.len() + 1,
            final(self).console_log.list@.drop_last() == old(self).console_log.list@,
            final(self).console_log.list@.last()@ == log_line(
                event,
                clock_text(now.unix_seconds + now.offset_seconds),
            ),
            match event {
                Event::Fissures { fissures, filtered_fissures, new_count } => {
                    &&& final(self).fissure_watcher.shows(fissures@, filtered_fissures@)
                    &&& final(self).fissure_watcher.selected == old(self).fissure_watcher.selected
                },
                _ => final(self).fissure_watcher == old(self).fissure_watcher,
            },
    {
        let mut line = String::from_str("[");
        line.append(now.clock().as_str());
        line.append("] ");
        let ghost logged = self.console_log.list@;
        match event {
            Event::Fissures { fissures, filtered_fissures, new_count } => {
                self.fissure_watcher.update_fissures(fissures, filtered_fissures);
                line.append(decimal_string(new_count as u64).as_str());
                line.append(" new fissures");
            },
            Event::Error(e) => {
                line.append("Error: ");
                line.append(e.as_str());
            },
            Event::NoNewFissures => {
                line.append("No new fissures");
            },
        }
        self.console_log.list.push(line);
        proof {
            assert(self.console_log.list@.drop_last() =~= logged);
        }
    }

    /// Removes the last character of the command, on the console tab only.
    pub fn on_backspace(&mut self)
        ensures
            final(self).current_cmd@ == if old(self).tabs.index == 0 && old(self).current_cmd@.len()
                > 0 {
                old(self).current_cmd@.drop_last()
            } else {
                old(self).current_cmd@
            },
            final(self).should_quit == old(self).should_quit,
            final(self).tabs == old(self).tabs,
            final(self).console_log == old(self).console_log,
            final(self).fissure_watcher == old(self).fissure_watcher,
    {
        if self.tabs.index == 0 {
            self.current_cmd.pop();
        }
    }

    pub fn on_esc(&mut self)
        ensures
            final(self).should_quit,
            final(self).tabs == old(self).tabs,
            final(self).console_log == old(self).console_log,
            final(self).current_cmd == old(self).current_cmd,
            final(self).fissure_watcher == old(self).fissure_watcher,
    {
        self.should_quit = true;
    }

    /// On the console tab, carries out the typed command and empties the
    /// command line.
    pub fn on_enter(&mut self)
        ensures
            final(self).should_quit == (old(self).should_quit || (old(self).tabs.index == 0
                && old(self).current_cmd@ == "quit"@)),
            final(self).current_cmd@ == if old(self).tabs.index == 0 {
                Seq::<char>::empty()
            } else {
                old(self).current_cmd@
            },
            final(self).tabs == old(self).tabs,
            final(self).console_log == old(self).console_log,
            final(self).fissure_watcher == old(self).fissure_watcher,
    {
        if self.tabs.index == 0 {
            self.exec_cmd();
            self.current_cmd.clear();
        }
    }
}

} // verus!
