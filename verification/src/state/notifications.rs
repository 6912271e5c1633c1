//! The bounded queue of messages for the operator.

use crate::clock::{now, Timestamp};
use std::collections::VecDeque;
use vstd::prelude::*;
use vstd::string::*;

verus! {

/// The most notifications that the queue holds.
pub const MAX_NOTIFICATIONS: usize = 50;

/// How much a notification matters.
#[derive(Clone, Copy, Debug, PartialEq, Eq, Structural)]
pub enum NotificationLevel {
    Info,
    Success,
    Warning,
    Error,
}

/// A message for the operator.
#[derive(Debug, PartialEq, Eq)]
pub struct Notification {
    pub message: String,
    pub level: NotificationLevel,
    pub timestamp: Timestamp,
}

/// The mathematical value of a `Notification`.
pub ghost struct NotificationView {
    pub message: Seq<char>,
    pub level: NotificationLevel,
    pub timestamp: Timestamp,
}

impl View for Notification {
    type V = NotificationView;

    open spec fn view(&self) -> NotificationView {
        NotificationView { message: self.message@, level: self.level, timestamp: self.timestamp }
    }
}

impl DeepView for Notification {
    type V = NotificationView;

    open spec fn deep_view(&self) -> NotificationView {
        self@
    }
}

impl Clone for Notification {
    fn clone(&self) -> (copy: Self)
        ensures
            copy@ == self@,
    {
        Notification {
            message: self.message.clone(),
            level: self.level,
            timestamp: self.timestamp,
        }
    }
}

impl Notification {
    /// A notification raised at a given instant.
    pub fn at(message: String, level: NotificationLevel, timestamp: Timestamp) -> (n: Self)
        ensures
            n@ == (NotificationView { message: message@, level, timestamp }),
    {
        Notification { message, level, timestamp }
    }

    /// An informational notification raised now.
    pub fn info(message: &str) -> (n: Self)
        ensures
            n@ == (NotificationView {
                message: message@,
                level: NotificationLevel::Info,
                timestamp: n.timestamp,
            }),
    {
        Notification::at(String::from_str(message), NotificationLevel::Info, now())
    }

    /// A notification of success raised now.
    pub fn success(message: &str) -> (n: Self)
        ensures
            n@ == (NotificationView {
                message: message@,
                level: NotificationLevel::Success,
                timestamp: n.timestamp,
            }),
    {
        Notification::at(String::from_str(message), NotificationLevel::Success, now())
    }

    /// A warning raised now.
    pub fn warning(message: &str) -> (n: Self)
        ensures
            n@ == (NotificationView {
                message: message@,
                level: NotificationLevel::Warning,
                timestamp: n.timestamp,
            }),
    {
        Notification::at(String::from_str(message), NotificationLevel::Warning, now())
    }

    /// A notification of an error raised now.
    pub fn error(message: &str) -> (n: Self)
        ensures
            n@ == (NotificationView {
                message: message@,
                level: NotificationLevel::Error,
                timestamp: n.timestamp,
            }),
    {
        Notification::at(String::from_str(message), NotificationLevel::Error, now())
    }
}

/// The last `n` items of a list, or the whole list if it has no more.
pub open spec fn keep_last<T>(items: Seq<T>, n: int) -> Seq<T> {
    if items.len() > n {
        items.subrange(items.len() - n, items.len() as int)
    } else {
        items
    }
}

/// The queue after one more notification: the new one at the back, and the
/// oldest ones dropped from the front until no more than the maximum remain.
pub open spec fn push_capped<T>(queue: Seq<T>, item: T) -> Seq<T> {
    keep_last(queue.push(item), MAX_NOTIFICATIONS as int)
}

/// The queue after a run of notifications, pushed one by one.
pub open spec fn push_all<T>(queue: Seq<T>, items: Seq<T>) -> Seq<T>
    decreases items.len(),
{
    if items.len() == 0 {
        queue
    } else {
        push_capped(push_all(queue, items.drop_last()), items.last())
    }
}

/// Pushing onto a queue within the bound keeps it within the bound, with the
/// new notification last.
pub proof fn lemma_push_capped<T>(queue: Seq<T>, item: T)
    requires
        queue.len() <= MAX_NOTIFICATIONS,
    ensures
        0 < push_capped(queue, item).len() <= MAX_NOTIFICATIONS,
        push_capped(queue, item).last() == item,
        push_capped(queue, item).len() == if queue.len() < MAX_NOTIFICATIONS {
            queue.len() + 1
        } else {
            MAX_NOTIFICATIONS as nat
        },
        push_capped(queue, item).drop_last() == if queue.len() < MAX_NOTIFICATIONS {
            queue
        } else {
            queue.drop_first()
        },
{
    let grown = queue.push(item);
    if queue.len() < MAX_NOTIFICATIONS {
        assert(push_capped(queue, item).drop_last() =~= queue);
    } else {
        assert(push_capped(queue, item).drop_last() =~= queue.drop_first());
    }
}

/// After any run of notifications the queue holds the most recent ones, up to
/// the maximum, in the order in which they came.
pub proof fn lemma_push_all<T>(queue: Seq<T>, items: Seq<T>)
    requires
        queue.len() <= MAX_NOTIFICATIONS,
    ensures
        push_all(queue, items) == keep_last(queue + items, MAX_NOTIFICATIONS as int),
        push_all(queue, items).len() <= MAX_NOTIFICATIONS,
    decreases items.len(),
{
    if items.len() == 0 {
        assert(queue + items =~= queue);
    } else {
        let front = items.drop_last();
        lemma_push_all(queue, front);
        let all_before = queue + front;
        let all = queue + items;
        assert(all =~= all_before.push(items.last()));
        assert(push_capped(keep_last(all_before, MAX_NOTIFICATIONS as int), items.last())
            =~= keep_last(all, MAX_NOTIFICATIONS as int));
    }
}

/// Pushes a notification onto a queue and drops the oldest ones beyond the
/// maximum.
pub fn enqueue(queue: &mut VecDeque<Notification>, notification: Notification)
    ensures
        final(queue).deep_view() == push_capped(old(queue).deep_view(), notification@),
{
    let ghost grown = old(queue)@.push(notification);
    queue.push_back(notification);
    while queue.len() > MAX_NOTIFICATIONS
        invariant
            queue@.len() <= grown.len(),
            queue@.len() >= MAX_NOTIFICATIONS || queue@.len() == grown.len(),
            queue@ == grown.subrange(grown.len() - queue@.len(), grown.len() as int),
        decreases queue.len(),
    {
        queue.pop_front();
        assert(queue@ =~= grown.subrange(grown.len() - queue@.len(), grown.len() as int));
    }
    assert(queue@ =~= keep_last(grown, MAX_NOTIFICATIONS as int));
    assert(queue.deep_view() =~= push_capped(old(queue).deep_view(), notification@));
}

} // verus!
