//! One round of watching: what to publish and what to notify once the fetch
//! has answered, and the table that shows the published fissures.

use vstd::prelude::*;
use vstd::string::StringExecFns;

use crate::app::{next_index, previous_index, select_next, select_previous};
use crate::config::Config;
use crate::models::{pointees, Fissure, Timestamp};
use crate::notifications::{batch_notification, deferred_texts, expiry_notifications, Notifications};
pub use crate::notifications::{spawn_expiry_notification, spawn_notifications};
use crate::reconcile::{added, reconciled, removed};
pub use crate::reconcile::update_fissures;

verus! {

/// What a round publishes to whoever displays the fissures.
pub enum Event {
    /// The snapshot changed: all fissures held now, those of them that pass
    /// the filters, and how many were added in this round.
    Fissures { fissures: Vec<Fissure>, filtered_fissures: Vec<Fissure>, new_count: usize },
    /// The fetch answered and nothing was added or removed.
    NoNewFissures,
    /// The fetch failed.
    Error(String),
}

/// The outcome of a round: the event to publish, and the notifications to
/// deliver, if the round calls for any.
pub struct Tick {
    pub event: Event,
    pub notifications: Option<Notifications>,
}

/// The notifications that a round owes for the fissures it added: none where
/// no added fissure passes the filters.
pub open spec fn notifies(tick: Tick, config: &Config, new: Seq<Fissure>, now: &Timestamp) -> bool {
    if config.filtered(new).len() == 0 {
        tick.notifications is None
    } else {
        &&& tick.notifications matches Some(planned)
        &&& planned.immediate@ == batch_notification(config.filtered(new))
        &&& deferred_texts(planned.deferred@) == expiry_notifications(
            config.filtered(new),
            config.time_before_expiry_notification,
            now,
        )
    }
}

/// Copies the last `count` fissures of the collection.
pub fn latest(fissures: &Vec<Fissure>, count: usize) -> (copies: Vec<Fissure>)
    requires
        count <= fissures.len(),
    ensures
        copies@ == fissures@.skip(fissures.len() - count),
{
    let start = fissures.len() - count;
    let mut copies: Vec<Fissure> = Vec::new();
    let mut i: usize = start;
    while i < fissures.len()
        invariant
            start <= i <= fissures.len(),
            copies@ == fissures@.subrange(start as int, i as int),
        decreases fissures.len() - i,
    {
        copies.push(fissures[i].clone());
        i += 1;
        proof {
            assert(copies@ =~= fissures@.subrange(start as int, i as int));
        }
    }
    proof {
        assert(copies@ =~= fissures@.skip(start as int));
    }
    copies
}

/// Carries out what a round decides once the fetch has answered.
///
/// A failed fetch leaves the held snapshot as it is and publishes an error.
/// Otherwise the snapshot is reconciled with what was fetched. Where that
/// neither added nor removed anything, the round says so. Where it did, the
/// round publishes the new snapshot with its filtered part and the number
/// added, and, where added fissures pass the filters, plans the notifications
/// for them.
pub fn poll(
    held: &mut Vec<Fissure>,
    fetched: Option<Vec<Fissure>>,
    config: &Config,
    now: &Timestamp,
) -> (tick: Tick)
    ensures
        match fetched {
            None => {
                &&& final(held)@ == old(held)@
                &&& tick.event matches Event::Error(message)
                &&& message@ == "Failed to fetch fissures"@
                &&& tick.notifications is None
            },
            Some(current) => {
                &&& final(held)@ == reconciled(old(held)@, current@)
                &&& if added(old(held)@, current@).len() == 0 && removed(old(held)@, current@).len()
                    == 0 {
                    &&& tick.event is NoNewFissures
                    &&& tick.notifications is None
                } else {
                    &&& tick.event matches Event::Fissures { fissures, filtered_fissures, new_count }
                    &&& fissures@ == reconciled(old(held)@, current@)
                    &&& filtered_fissures@ == config.filtered(reconciled(old(held)@, current@))
                    &&& new_count == added(old(held)@, current@).len()
                    &&& notifies(tick, config, added(old(held)@, current@), now)
                }
            },
        },
{
    match fetched {
        None => Tick {
            event: Event::Error(String::from_str("Failed to fetch fissures")),
            notifications: None,
        },
        Some(current) => {
            let ghost before = held@;
            let ghost new = added(before, current@);
            let (new_count, removed_count) = update_fissures(held, current);
            if new_count > 0 || removed_count > 0 {
                let mut notifications: Option<Notifications> = None;
                proof {
                    assert(held@.skip(held.len() - new_count) =~= new);
                    if new_count == 0 {
                        reveal(Seq::filter);
                        assert(new =~= Seq::<Fissure>::empty());
                    }
                }
                if new_count > 0 {
                    // apply filters to new fissures
                    let new_fissures = latest(held, new_count);
                    let filtered_fissures = config.apply_filters(&new_fissures);
                    if filtered_fissures.len() > 0 {
                        notifications = Some(
                            spawn_notifications(
                                &filtered_fissures,
                                config.time_before_expiry_notification,
                                now,
                            ),
                        );
                    }
                    proof {
                        assert(pointees(filtered_fissures@).len() == filtered_fissures@.len());
                    }
                }
                let filtered_fissures = config.apply_filters_cloned(held);
                let fissures = latest(held, held.len());
                proof {
                    assert(held@.skip(0) =~= held@);
                }
                Tick {
                    event: Event::Fissures { fissures, filtered_fissures, new_count },
                    notifications,
                }
            } else {
                Tick { event: Event::NoNewFissures, notifications: None }
            }
        },
    }
}

/// What the fissure table shows: the fissures as published, those that pass
/// the filters, their rows, and the selected row.
pub struct FissureWatcher {
    pub fissures: Vec<Fissure>,
    pub filtered_fissures: Vec<Fissure>,
    pub table_rows: Vec<Vec<String>>,
    pub selected: Option<usize>,
}

impl FissureWatcher {
    /// Nothing is known and nothing shown.
    pub open spec fn is_empty(&self) -> bool {
        &&& self.fissures@.len() == 0
        &&& self.filtered_fissures@.len() == 0
        &&& self.table_rows@.len() == 0
        &&& self.selected is None
    }

    /// The table has one row for each filtered fissure, in order, with that
    /// fissure's cells.
    pub open spec fn rows_match(&self) -> bool {
        &&& self.table_rows@.len() == self.filtered_fissures@.len()
        &&& forall|i: int|
            0 <= i < self.table_rows@.len() ==> (#[trigger] self.table_rows@[i])@.map_values(
                |cell: String| cell@,
            ) == self.filtered_fissures@[i].row()
    }

    /// The table shows these fissures and these filtered fissures.
    pub open spec fn shows(&self, fissures: Seq<Fissure>, filtered_fissures: Seq<Fissure>) -> bool {
        &&& self.fissures@ == fissures
        &&& self.filtered_fissures@ == filtered_fissures
        &&& self.rows_match()
    }

    /// The two hold the same fissures and rows; the selection may differ.
    pub open spec fn same_table(&self, other: FissureWatcher) -> bool {
        &&& self.fissures == other.fissures
        &&& self.filtered_fissures == other.filtered_fissures
        &&& self.table_rows == other.table_rows
    }

    pub fn new() -> (watcher: FissureWatcher)
        ensures
            watcher.is_empty(),
    {
        FissureWatcher {
            fissures: Vec::new(),
            filtered_fissures: Vec::new(),
            table_rows: Vec::new(),
            selected: None,
        }
    }

    pub fn update_fissures(&mut self, fissures: Vec<Fissure>, filtered_fissures: Vec<Fissure>)
        requires
            forall|i: int|
                0 <= i < filtered_fissures.len() ==> (#[trigger] filtered_fissures@[i]).expiry.wf(),
        ensures
            final(self).shows(fissures@, filtered_fissures@),
            final(self).selected == old(self).selected,
    {
        self.fissures = fissures;
        self.update_filtered_fissures(filtered_fissures);
    }

    pub fn update_filtered_fissures(&mut self, filtered_fissures: Vec<Fissure>)
        requires
            forall|i: int|
                0 <= i < filtered_fissures.len() ==> (#[trigger] filtered_fissures@[i]).expiry.wf(),
        ensures
            final(self).shows(old(self).fissures@, filtered_fissures@),
            final(self).selected == old(self).selected,
    {
        let mut table_rows: Vec<Vec<String>> = Vec::new();
        let mut i: usize = 0;
        while i < filtered_fissures.len()
            invariant
                i <= filtered_fissures.len(),
                table_rows@.len() == i,
                forall|k: int|
                    0 <= k < filtered_fissures.len() ==> (#[trigger] filtered_fissures@[k]).expiry.wf(),
                forall|k: int|
                    0 <= k < i ==> (#[trigger] table_rows@[k])@.map_values(|cell: String| cell@)
                        == filtered_fissures@[k].row(),
            decreases filtered_fissures.len() - i,
        {
            table_rows.push(filtered_fissures[i].table_string());
            i += 1;
        }
        self.filtered_fissures = filtered_fissures;
        self.table_rows = table_rows;
    }

    /// Moves the selection one row down.
    pub fn next(&mut self)
        requires
            old(self).selected is Some ==> old(self).filtered_fissures.len() > 0,
        ensures
            final(self).same_table(*old(self)),
            final(self).selected == Some(
                next_index(old(self).selected, old(self).filtered_fissures.len()) as usize,
            ),
    {
        let i = select_next(self.selected, self.filtered_fissures.len());
        self.selected = Some(i);
    }

    /// Moves the selection one row up.
    pub fn previous(&mut self)
        requires
            old(self).selected == Some(0usize) ==> old(self).filtered_fissures.len() > 0,
        ensures
            final(self).same_table(*old(self)),
            final(self).selected == Some(
                previous_index(old(self).selected, old(self).filtered_fissures.len()) as usize,
            ),
    {
        let i = select_previous(self.selected, self.filtered_fissures.len());
        self.selected = Some(i);
    }
}

} // verus!
