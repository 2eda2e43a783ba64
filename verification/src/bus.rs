//! Routes notifications to specific panes. A notification stays pending
//! until it is read or its pane is focused.

use crate::data::PaneId;
use crate::notification::Notification;
use std::collections::HashMap;
use vstd::prelude::*;

verus! {

broadcast use vstd::std_specs::hash::group_hash_axioms;

/// Central notification router for pane-level alerts.
pub struct NotificationBus {
    /// Maps the key of a pane to its pending notification (last write wins).
    pending_notifications: HashMap<u64, Notification>,
}

impl View for NotificationBus {
    type V = Map<PaneId, Notification>;

    /// The pending notification of each pane that has one.
    closed spec fn view(&self) -> Map<PaneId, Notification> {
        Map::new(
            |pane: PaneId| self.pending_notifications@.contains_key(pane.spec_key()),
            |pane: PaneId| self.pending_notifications@[pane.spec_key()],
        )
    }
}

impl NotificationBus {
    /// A bus on which nothing is pending.
    pub fn new() -> (bus: Self)
        ensures
            bus@ == Map::<PaneId, Notification>::empty(),
    {
        let bus = NotificationBus { pending_notifications: HashMap::new() };
        assert(bus@ =~= Map::<PaneId, Notification>::empty());
        bus
    }

    /// Route notification to specific pane.
    ///
    /// If pane already has a notification, it will be overwritten (last write
    /// wins).
    pub fn notify_pane(&mut self, pane_id: PaneId, notification: Notification)
        ensures
            final(self)@ == old(self)@.insert(pane_id, notification),
    {
        self.pending_notifications.insert(pane_id.key(), notification);
        proof {
            assert forall|pane: PaneId| pane.spec_key() == pane_id.spec_key() implies pane
                == pane_id by {
                PaneId::lemma_key_is_injective(pane, pane_id);
            }
            assert(final(self)@ =~= old(self)@.insert(pane_id, notification));
        }
    }

    /// Get notification for pane (consumed on read).
    ///
    /// Returns None if no notification is pending for this pane.
    pub fn get_notification(&mut self, pane_id: &PaneId) -> (taken: Option<Notification>)
        ensures
            final(self)@ == old(self)@.remove(*pane_id),
            taken == if old(self)@.contains_key(*pane_id) {
                Some(old(self)@[*pane_id])
            } else {
                None
            },
    {
        let key: u64 = pane_id.key();
        let taken = self.pending_notifications.remove(&key);
        proof {
            assert forall|pane: PaneId| pane.spec_key() == pane_id.spec_key() implies pane
                == *pane_id by {
                PaneId::lemma_key_is_injective(pane, *pane_id);
            }
            assert(final(self)@ =~= old(self)@.remove(*pane_id));
        }
        taken
    }

    /// Clear notification when pane is focused.
    pub fn clear_notification(&mut self, pane_id: &PaneId)
        ensures
            final(self)@ == old(self)@.remove(*pane_id),
    {
        let _ = self.get_notification(pane_id);
    }

    /// Check if pane has pending notification (without consuming it).
    pub fn has_notification(&self, pane_id: &PaneId) -> (pending: bool)
        ensures
            pending == self@.contains_key(*pane_id),
    {
        let key: u64 = pane_id.key();
        self.pending_notifications.contains_key(&key)
    }

    /// Get immutable reference to notification (without consuming it).
    pub fn peek_notification(&self, pane_id: &PaneId) -> (found: Option<&Notification>)
        ensures
            match found {
                Some(notification) => self@.contains_key(*pane_id) && *notification
                    == self@[*pane_id],
                None => !self@.contains_key(*pane_id),
            },
    {
        let key: u64 = pane_id.key();
        self.pending_notifications.get(&key)
    }
}

impl Default for NotificationBus {
    fn default() -> (bus: Self)
        ensures
            bus@ == Map::<PaneId, Notification>::empty(),
    {
        Self::new()
    }
}

/// A notification that is read is gone: after it was routed to a pane and
/// taken from it, the bus holds for that pane what it held before, minus the
/// pane itself.
pub proof fn lemma_read_consumes(
    pending: Map<PaneId, Notification>,
    pane: PaneId,
    notification: Notification,
)
    ensures
        pending.insert(pane, notification)[pane] == notification,
        pending.insert(pane, notification).remove(pane) == pending.remove(pane),
        !pending.insert(pane, notification).remove(pane).contains_key(pane),
{
    assert(pending.insert(pane, notification).remove(pane) =~= pending.remove(pane));
}

/// Last write wins, and panes do not disturb one another: a second
/// notification for a pane replaces the first, and leaves what is pending
/// for every other pane.
pub proof fn lemma_last_write_wins(
    pending: Map<PaneId, Notification>,
    pane: PaneId,
    first: Notification,
    second: Notification,
    other: PaneId,
)
    requires
        other != pane,
    ensures
        pending.insert(pane, first).insert(pane, second) == pending.insert(pane, second),
        pending.insert(pane, second).contains_key(other) == pending.contains_key(other),
        pending.contains_key(other) ==> pending.insert(pane, second)[other] == pending[other],
{
    assert(pending.insert(pane, first).insert(pane, second) =~= pending.insert(pane, second));
}

} // verus!
