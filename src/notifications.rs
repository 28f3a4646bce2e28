//! In-app notifications, newest first, capped in number.
use vstd::prelude::*;
use crate::keyed::{Keyed, find_first_key, first_index_of, remove_key, without_key};

verus! {

/// How many notifications are kept; older ones fall off the end.
pub const MAX_NOTIFICATIONS: usize = 100;

#[derive(Clone, Copy, Debug, PartialEq, Eq, Structural)]
pub enum NotificationLevel {
    Info,
    Success,
    Warning,
    Error,
}

#[derive(Clone, Copy, Debug, PartialEq, Eq, Structural)]
pub enum NotificationCategory {
    System,
    Project,
    Git,
    LLM,
    Update,
    Plugin,
    License,
    Test,
}

#[derive(Debug)]
pub struct NotificationAction {
    pub label: String,
    pub action: String,
}

impl Clone for NotificationAction {
    fn clone(&self) -> (r: Self)
        ensures
            r == *self,
    {
        NotificationAction { label: self.label.clone(), action: self.action.clone() }
    }
}

#[derive(Debug)]
pub struct Notification {
    pub id: String,
    pub title: String,
    pub message: String,
    pub level: NotificationLevel,
    pub category: NotificationCategory,
    pub timestamp: String,
    pub read: bool,
    pub actions: Vec<NotificationAction>,
}

/// Two notifications with the same content.
pub open spec fn same_notification(a: Notification, b: Notification) -> bool {
    &&& a.id == b.id
    &&& a.title == b.title
    &&& a.message == b.message
    &&& a.level == b.level
    &&& a.category == b.category
    &&& a.timestamp == b.timestamp
    &&& a.read == b.read
    &&& a.actions@ == b.actions@
}

impl Clone for Notification {
    fn clone(&self) -> (r: Self)
        ensures
            same_notification(r, *self),
    {
        let actions = self.actions.clone();
        proof {
            assert(actions@ =~= self.actions@);
        }
        Notification {
            id: self.id.clone(),
            title: self.title.clone(),
            message: self.message.clone(),
            level: self.level,
            category: self.category,
            timestamp: self.timestamp.clone(),
            read: self.read,
            actions,
        }
    }
}

impl Keyed for Notification {
    open spec fn key(&self) -> Seq<char> {
        self.id@
    }

    fn key_text(&self) -> (r: &String) {
        &self.id
    }
}

/// `a` and `b` agree element by element on content.
pub open spec fn same_notifications(a: Seq<Notification>, b: Seq<Notification>) -> bool {
    &&& a.len() == b.len()
    &&& forall|i: int| 0 <= i < a.len() ==> same_notification(#[trigger] a[i], b[i])
}

/// `n` marked as read.
pub open spec fn marked_read(n: Notification) -> Notification {
    Notification { read: true, ..n }
}

pub open spec fn is_unread() -> spec_fn(Notification) -> bool {
    |n: Notification| !n.read
}

/// The first `max` of `s`.
pub open spec fn capped(s: Seq<Notification>, max: nat) -> Seq<Notification> {
    if s.len() > max {
        s.subrange(0, max as int)
    } else {
        s
    }
}

pub struct NotificationManager {
    notifications: Vec<Notification>,
    max_notifications: usize,
}

impl NotificationManager {
    /// The notifications, newest first.
    pub closed spec fn items(&self) -> Seq<Notification> {
        self.notifications@
    }

    pub closed spec fn capacity(&self) -> nat {
        self.max_notifications as nat
    }

    pub open spec fn wf(&self) -> bool {
        &&& self.capacity() == MAX_NOTIFICATIONS
        &&& self.items().len() <= self.capacity()
    }

    pub fn new() -> (r: Self)
        ensures
            r.wf(),
            r.items() == Seq::<Notification>::empty(),
    {
        NotificationManager { notifications: Vec::new(), max_notifications: MAX_NOTIFICATIONS }
    }

    /// Puts `notification` in front; the oldest beyond the cap are dropped.
    pub fn add(&mut self, notification: Notification)
        requires
            old(self).wf(),
        ensures
            final(self).wf(),
            final(self).items() == capped(seq![notification] + old(self).items(), MAX_NOTIFICATIONS as nat),
    {
        let ghost before = self.notifications@;
        self.notifications.insert(0, notification);
        proof {
            assert(self.notifications@ =~= seq![notification] + before);
        }
        if self.notifications.len() > self.max_notifications {
            self.notifications.truncate(self.max_notifications);
        }
    }

    /// All notifications, newest first.
    pub fn get_all(&self) -> (r: Vec<Notification>)
        ensures
            same_notifications(r@, self.items()),
    {
        let mut r: Vec<Notification> = Vec::new();
        let mut i: usize = 0;
        while i < self.notifications.len()
            invariant
                i <= self.notifications@.len(),
                same_notifications(r@, self.notifications@.subrange(0, i as int)),
            decreases self.notifications@.len() - i,
        {
            r.push(self.notifications[i].clone());
            i = i + 1;
        }
        proof {
            assert(self.notifications@.subrange(0, i as int) =~= self.notifications@);
        }
        r
    }

    /// The unread notifications, newest first.
    pub fn get_unread(&self) -> (r: Vec<Notification>)
        ensures
            same_notifications(r@, self.items().filter(is_unread())),
    {
        let ghost s = self.notifications@;
        let mut r: Vec<Notification> = Vec::new();
        let mut i: usize = 0;
        while i < self.notifications.len()
            invariant
                i <= s.len(),
                s == self.notifications@,
                same_notifications(r@, s.subrange(0, i as int).filter(is_unread())),
            decreases s.len() - i,
        {
            proof {
                assert(s.subrange(0, i + 1).drop_last() =~= s.subrange(0, i as int));
                reveal(Seq::filter);
            }
            if !self.notifications[i].read {
                r.push(self.notifications[i].clone());
            }
            i = i + 1;
        }
        proof {
            assert(s.subrange(0, i as int) =~= s);
        }
        r
    }

    /// Marks the first notification keyed `id` as read.
    pub fn mark_read(&mut self, id: &str) -> (r: Result<(), String>)
        requires
            old(self).wf(),
        ensures
            r is Ok,
            final(self).wf(),
            final(self).items() == ({
                let s = old(self).items();
                let i = first_index_of(s, id@);
                if i >= 0 {
                    s.update(i, marked_read(s[i]))
                } else {
                    s
                }
            }),
    {
        let k = id.to_owned();
        match find_first_key(&self.notifications, &k) {
            Some(i) => {
                let mut n = self.notifications.remove(i);
                n.read = true;
                self.notifications.insert(i, n);
                proof {
                    assert(self.notifications@ =~= old(self).notifications@.update(i as int, n));
                }
            },
            None => {},
        }
        Ok(())
    }

    pub fn mark_all_read(&mut self)
        requires
            old(self).wf(),
        ensures
            final(self).wf(),
            final(self).items().len() == old(self).items().len(),
            forall|i: int| 0 <= i < old(self).items().len() ==> #[trigger] final(self).items()[i] == marked_read(old(self).items()[i]),
    {
        let mut i: usize = 0;
        while i < self.notifications.len()
            invariant
                self.max_notifications == old(self).max_notifications,
                self.notifications@.len() == old(self).notifications@.len(),
                i <= self.notifications@.len(),
                forall|j: int| 0 <= j < i ==> #[trigger] self.notifications@[j] == marked_read(old(self).notifications@[j]),
                forall|j: int| i <= j < self.notifications@.len() ==> #[trigger] self.notifications@[j] == old(self).notifications@[j],
            decreases self.notifications@.len() - i,
        {
            let mut n = self.notifications.remove(i);
            n.read = true;
            self.notifications.insert(i, n);
            i = i + 1;
        }
    }

    /// Drops every notification keyed `id`.
    pub fn delete(&mut self, id: &str)
        requires
            old(self).wf(),
        ensures
            final(self).wf(),
            final(self).items() == without_key(old(self).items(), id@),
    {
        let k = id.to_owned();
        remove_key(&mut self.notifications, &k);
        proof {
            crate::keyed::lemma_without_key_len(old(self).notifications@, id@);
        }
    }

    pub fn clear_all(&mut self)
        requires
            old(self).wf(),
        ensures
            final(self).wf(),
            final(self).items() == Seq::<Notification>::empty(),
    {
        self.notifications.clear();
    }

    /// Drops the notifications already read, keeping the others in order.
    pub fn clear_read(&mut self)
        requires
            old(self).wf(),
        ensures
            final(self).wf(),
            final(self).items() == old(self).items().filter(is_unread()),
    {
        let ghost s = self.notifications@;
        let ghost mut j: int = 0;
        let mut i: usize = 0;
        while i < self.notifications.len()
            invariant
                self.max_notifications == old(self).max_notifications,
                s == old(self).notifications@,
                s.len() <= MAX_NOTIFICATIONS,
                0 <= i <= j <= s.len(),
                i <= self.notifications@.len(),
                self.notifications@.len() - i == s.len() - j,
                self.notifications@.subrange(0, i as int) == s.subrange(0, j).filter(is_unread()),
                self.notifications@.subrange(i as int, self.notifications@.len() as int) == s.subrange(j, s.len() as int),
            decreases self.notifications@.len() - i,
        {
            let ghost before = self.notifications@;
            proof {
                assert(before[i as int] == s[j]) by {
                    assert(before.subrange(i as int, before.len() as int)[0] == s.subrange(j, s.len() as int)[0]);
                }
                assert(s.subrange(0, j + 1).drop_last() =~= s.subrange(0, j));
                reveal(Seq::filter);
            }
            if self.notifications[i].read {
                self.notifications.remove(i);
                proof {
                    assert(self.notifications@.subrange(0, i as int) =~= before.subrange(0, i as int));
                    assert forall|t: int| 0 <= t < self.notifications@.len() - i implies self.notifications@.subrange(i as int, self.notifications@.len() as int)[t]
                        == s.subrange(j + 1, s.len() as int)[t] by {
                        assert(before.subrange(i as int, before.len() as int)[t + 1] == s.subrange(j, s.len() as int)[t + 1]);
                    }
                    assert(self.notifications@.subrange(i as int, self.notifications@.len() as int) =~= s.subrange(j + 1, s.len() as int));
                    j = j + 1;
                }
            } else {
                i = i + 1;
                proof {
                    assert(self.notifications@.subrange(0, i as int) =~= before.subrange(0, i - 1).push(s[j]));
                    assert forall|t: int| 0 <= t < self.notifications@.len() - i implies self.notifications@.subrange(i as int, self.notifications@.len() as int)[t]
                        == s.subrange(j + 1, s.len() as int)[t] by {
                        assert(before.subrange(i - 1, before.len() as int)[t + 1] == s.subrange(j, s.len() as int)[t + 1]);
                    }
                    assert(self.notifications@.subrange(i as int, self.notifications@.len() as int) =~= s.subrange(j + 1, s.len() as int));
                    j = j + 1;
                }
            }
        }
        proof {
            assert(j == s.len());
            assert(s.subrange(0, j) =~= s);
            assert(self.notifications@.subrange(0, i as int) =~= self.notifications@);
            s.lemma_filter_len(is_unread());
        }
    }
}

} // verus!
