//! Planning the notifications that newly matching fissures give rise to: one
//! at once for the whole batch, and one for each fissure shortly before it
//! expires.

use vstd::prelude::*;
use vstd::string::StringExecFns;

use crate::models::{pointees, Fissure, Timestamp};
use crate::text::{decimal, decimal_string, join, joined};

verus! {

/// A notification for the desktop: a summary line and a body.
pub struct Notification {
    pub summary: String,
    pub body: String,
}

/// The text of a notification.
pub struct NotificationText {
    pub summary: Seq<char>,
    pub body: Seq<char>,
}

impl View for Notification {
    type V = NotificationText;

    open spec fn view(&self) -> NotificationText {
        NotificationText { summary: self.summary@, body: self.body@ }
    }
}

/// A notification to deliver after a delay.
pub struct DeferredNotification {
    /// How long to wait from the moment of scheduling, in nanoseconds
    pub delay_nanos: u128,
    pub notification: Notification,
}

/// A delay, in nanoseconds, and the text to deliver after it.
pub struct DeferredText {
    pub delay_nanos: int,
    pub text: NotificationText,
}

impl View for DeferredNotification {
    type V = DeferredText;

    open spec fn view(&self) -> DeferredText {
        DeferredText { delay_nanos: self.delay_nanos as int, text: self.notification@ }
    }
}

/// What a batch of newly matching fissures asks to be delivered.
pub struct Notifications {
    /// To deliver at once
    pub immediate: Notification,
    /// To deliver later, each after its own delay and independently of the
    /// others
    pub deferred: Vec<DeferredNotification>,
}

/// The texts of deferred notifications.
pub open spec fn deferred_texts(deferred: Seq<DeferredNotification>) -> Seq<DeferredText> {
    deferred.map_values(|notification: DeferredNotification| notification@)
}

/// The summary of the notification that announces an expiry `lead` seconds
/// ahead.
pub open spec fn expiry_summary(lead: u64) -> Seq<char> {
    "Fissure is Expiring In "@ + decimal(lead as nat) + " Seconds"@
}

/// The instant, in nanoseconds since the Unix epoch, at which the expiry of
/// the fissure is announced: `lead` seconds before it expires.
pub open spec fn announce_at(fissure: &Fissure, lead: u64) -> int {
    fissure.expiry.instant() - lead * 1_000_000_000
}

/// The expiry notification of a fissure as seen at `now`: none if the instant
/// to announce it at is not in the future.
pub open spec fn expiry_notification(fissure: &Fissure, lead: u64, now: &Timestamp) -> Option<
    DeferredText,
> {
    if announce_at(fissure, lead) > now.instant() {
        Some(
            DeferredText {
                delay_nanos: announce_at(fissure, lead) - now.instant(),
                text: NotificationText { summary: expiry_summary(lead), body: fissure.display() },
            },
        )
    } else {
        None
    }
}

/// `expiry_notification` as a function of the fissure.
pub open spec fn expiry_notification_of(lead: u64, now: &Timestamp) -> spec_fn(Fissure) -> Option<
    DeferredText,
> {
    |fissure: Fissure| expiry_notification(&fissure, lead, now)
}

/// The expiry notifications of a batch, in its order, without the fissures
/// that have none.
pub open spec fn expiry_notifications(fissures: Seq<Fissure>, lead: u64, now: &Timestamp) -> Seq<
    DeferredText,
> {
    fissures.filter_map(expiry_notification_of(lead, now))
}

/// The body that announces a batch: the rendering of each fissure, one per
/// line.
pub open spec fn batch_body(fissures: Seq<Fissure>) -> Seq<char> {
    joined(fissures.map_values(|fissure: Fissure| fissure.display()), "\n"@)
}

/// The notification that announces a batch of new fissures.
pub open spec fn batch_notification(fissures: Seq<Fissure>) -> NotificationText {
    NotificationText { summary: "New Fissures"@, body: batch_body(fissures) }
}

/// Plans the notification of the fissure's expiry, to be delivered once there
/// are `time_before_expiry_notification` seconds left before it expires.
/// Where that moment is not after `now`, there is nothing to deliver.
pub fn spawn_expiry_notification(
    fissure: &Fissure,
    time_before_expiry_notification: u64,
    now: &Timestamp,
) -> (planned: Option<DeferredNotification>)
    ensures
        match planned {
            Some(deferred) => expiry_notification(fissure, time_before_expiry_notification, now)
                == Some(deferred@),
            None => expiry_notification(fissure, time_before_expiry_notification, now) is None,
        },
{
    let lead_nanos: i128 = (time_before_expiry_notification as i128) * 1_000_000_000;
    let expiry: i128 = fissure.expiry.unix_nanos() - lead_nanos;
    let now_nanos: i128 = now.unix_nanos();
    if expiry > now_nanos {
        let duration: i128 = expiry - now_nanos;
        let mut summary = String::from_str("Fissure is Expiring In ");
        summary.append(decimal_string(time_before_expiry_notification).as_str());
        summary.append(" Seconds");
        Some(
            DeferredNotification {
                delay_nanos: duration as u128,
                notification: Notification { summary, body: fissure.to_string() },
            },
        )
    } else {
        None
    }
}

/// Plans the notifications for a batch of new fissures: one, to deliver at
/// once, with the details of each fissure, and for each fissure one for its
/// expiry, to deliver once there are `time_before_expiry_notification` seconds
/// left.
pub fn spawn_notifications(
    fissures: &Vec<&Fissure>,
    time_before_expiry_notification: u64,
    now: &Timestamp,
) -> (planned: Notifications)
    ensures
        planned.immediate@ == batch_notification(pointees(fissures@)),
        deferred_texts(planned.deferred@) == expiry_notifications(
            pointees(fissures@),
            time_before_expiry_notification,
            now,
        ),
{
    let ghost batch = pointees(fissures@);
    let ghost plan = expiry_notification_of(time_before_expiry_notification, now);
    let mut lines: Vec<String> = Vec::new();
    let mut deferred: Vec<DeferredNotification> = Vec::new();
    let mut i: usize = 0;
    proof {
        assert(batch.take(0) =~= Seq::<Fissure>::empty());
        assert(deferred_texts(deferred@) =~= batch.take(0).filter_map(plan));
    }
    while i < fissures.len()
        invariant
            i <= fissures.len(),
            batch == pointees(fissures@),
            plan == expiry_notification_of(time_before_expiry_notification, now),
            lines@.map_values(|line: String| line@) == batch.take(i as int).map_values(
                |fissure: Fissure| fissure.display(),
            ),
            deferred_texts(deferred@) == batch.take(i as int).filter_map(plan),
        decreases fissures.len() - i,
    {
        let ghost lines_before = lines@;
        let ghost deferred_before = deferred@;
        proof {
            batch.lemma_filter_map_take_succ(plan, i as int);
        }
        lines.push(fissures[i].to_string());
        match spawn_expiry_notification(fissures[i], time_before_expiry_notification, now) {
            Some(notification) => {
                deferred.push(notification);
                proof {
                    assert(deferred_texts(deferred@) =~= deferred_texts(deferred_before).push(
                        notification@,
                    ));
                }
            },
            None => {},
        }
        proof {
            let shown = lines_before.map_values(|line: String| line@);
            assert(batch[i as int] == *fissures@[i as int]);
            assert(lines@.map_values(|line: String| line@) =~= shown.push(batch[i as int].display()));
            assert(batch.take(i + 1) =~= batch.take(i as int).push(batch[i as int]));
            assert(batch.take(i + 1).map_values(|fissure: Fissure| fissure.display()) =~= shown.push(
                batch[i as int].display(),
            ));
            assert(deferred_texts(deferred@) =~= batch.take(i + 1).filter_map(plan));
        }
        i += 1;
    }
    proof {
        assert(batch.take(fissures.len() as int) =~= batch);
    }
    let immediate = Notification {
        summary: String::from_str("New Fissures"),
        body: join(&lines, "\n"),
    };
    Notifications { immediate, deferred }
}

} // verus!
