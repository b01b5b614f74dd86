//! Reference-counted ownership of native resources.
//!
//! Each native resource the shell allocates is entered into a `HandleStore`
//! slot that records the raw pointer value and how many shares of it are
//! outstanding. Shares are taken and given back explicitly; giving back the
//! last one yields the raw value as a destroy order for the shell, and the
//! slot is then spent for good. The lemma at the end states the point of the
//! scheme: over any ordering of retains and releases, the destroy order is
//! issued exactly once, at the last release.

use vstd::prelude::*;

verus! {

/// One native resource: its raw pointer value, the count of outstanding
/// shares, whether it was explicitly closed, whether it was opened
/// read-only, and the path it was opened under.
pub struct Slot {
    pub raw: u64,
    pub shares: u64,
    pub closed: bool,
    pub read_only: bool,
    pub path: String,
}

/// The slots agree on everything but the share count.
pub open spec fn same_but_shares(pre: Slot, post: Slot) -> bool {
    &&& post.raw == pre.raw
    &&& post.closed == pre.closed
    &&& post.read_only == pre.read_only
    &&& post.path == pre.path
}

/// The resource table: one slot per native resource ever registered.
/// Slots are never removed; a spent slot stays, so that slot numbers held
/// elsewhere keep their meaning.
pub struct HandleStore {
    pub slots: Vec<Slot>,
}

/// The stores agree on every slot but `id`, and on the slot count.
pub open spec fn only_slot_touched(pre: HandleStore, post: HandleStore, id: int) -> bool {
    &&& post.slots@.len() == pre.slots@.len()
    &&& forall|i: int|
        0 <= i < post.slots@.len() && i != id ==> post.slots@[i] == pre.slots@[i]
}

/// Slot `id` took one more share; nothing else moved.
pub open spec fn retained(pre: HandleStore, post: HandleStore, id: int) -> bool {
    &&& only_slot_touched(pre, post, id)
    &&& same_but_shares(pre.slots@[id], post.slots@[id])
    &&& post.slots@[id].shares == pre.slots@[id].shares + 1
}

/// Slot `id` gave one share back; nothing else moved.
pub open spec fn released(pre: HandleStore, post: HandleStore, id: int) -> bool {
    &&& only_slot_touched(pre, post, id)
    &&& same_but_shares(pre.slots@[id], post.slots@[id])
    &&& post.slots@[id].shares == pre.slots@[id].shares - 1
}

impl HandleStore {
    /// A registered raw pointer is never null.
    pub open spec fn wf(&self) -> bool {
        forall|i: int| 0 <= i < self.slots@.len() ==> (#[trigger] self.slots@[i]).raw != 0
    }

    /// The slot is present and still holds shares.
    pub open spec fn live(&self, id: usize) -> bool {
        id < self.slots@.len() && self.slots@[id as int].shares > 0
    }

    pub fn new() -> (s: HandleStore)
        ensures
            s.wf(),
            s.slots@.len() == 0,
    {
        HandleStore { slots: Vec::new() }
    }

    /// Enter a freshly allocated native resource, with one share out.
    pub fn register(&mut self, raw: u64, read_only: bool, path: String) -> (id: usize)
        requires
            old(self).wf(),
            raw != 0,
        ensures
            final(self).wf(),
            id == old(self).slots@.len(),
            final(self).slots@.len() == old(self).slots@.len() + 1,
            final(self).slots@[id as int] == (Slot {
                raw,
                shares: 1,
                closed: false,
                read_only,
                path,
            }),
            final(self).live(id),
            forall|i: int|
                0 <= i < old(self).slots@.len() ==> final(self).slots@[i] == old(self).slots@[i],
    {
        let id = self.slots.len();
        self.slots.push(Slot { raw, shares: 1, closed: false, read_only, path });
        id
    }

    /// Take one more share of a live slot.
    pub fn retain(&mut self, id: usize)
        requires
            old(self).wf(),
            old(self).live(id),
            old(self).slots@[id as int].shares < u64::MAX,
        ensures
            final(self).wf(),
            retained(*old(self), *final(self), id as int),
            final(self).live(id),
    {
        let slot = &mut self.slots[id];
        slot.shares = slot.shares + 1;
    }

    /// Give one share back. Exactly when it was the last one, the raw value
    /// comes back as the destroy order the shell must carry out; the slot is
    /// then spent and no share of it can be taken again.
    pub fn release(&mut self, id: usize) -> (destroy: Option<u64>)
        requires
            old(self).wf(),
            old(self).live(id),
        ensures
            final(self).wf(),
            released(*old(self), *final(self), id as int),
            destroy == (if old(self).slots@[id as int].shares == 1 {
                Some(old(self).slots@[id as int].raw)
            } else {
                Option::<u64>::None
            }),
    {
        let slot = &mut self.slots[id];
        slot.shares = slot.shares - 1;
        if slot.shares == 0 {
            Some(slot.raw)
        } else {
            None
        }
    }

    /// Mark a slot explicitly closed. Read operations on a closed slot are
    /// refused from then on; the shares themselves stay as they are.
    pub fn mark_closed(&mut self, id: usize)
        requires
            old(self).wf(),
            id < old(self).slots@.len(),
        ensures
            final(self).wf(),
            only_slot_touched(*old(self), *final(self), id as int),
            final(self).slots@[id as int].closed,
            final(self).slots@[id as int].shares == old(self).slots@[id as int].shares,
            final(self).slots@[id as int].raw == old(self).slots@[id as int].raw,
            final(self).slots@[id as int].read_only == old(self).slots@[id as int].read_only,
            final(self).slots@[id as int].path == old(self).slots@[id as int].path,
    {
        let slot = &mut self.slots[id];
        slot.closed = true;
    }
}

/// One step in the life of a shared root: a share taken, or a share given
/// back.
#[derive(Clone, Copy, Debug, PartialEq, Eq, Structural)]
pub enum ShareEvent {
    Retain,
    Release,
}

/// How many shares are out after a sequence of events, starting from the
/// single share that registration hands out.
pub open spec fn shares_after(events: Seq<ShareEvent>) -> int
    decreases events.len(),
{
    if events.len() == 0 {
        1
    } else {
        match events.last() {
            ShareEvent::Retain => shares_after(events.drop_last()) + 1,
            ShareEvent::Release => shares_after(events.drop_last()) - 1,
        }
    }
}

/// How many destroy orders a sequence of events issues: one for each release
/// that brings the share count to zero.
pub open spec fn destroys_in(events: Seq<ShareEvent>) -> int
    decreases events.len(),
{
    if events.len() == 0 {
        0
    } else {
        destroys_in(events.drop_last()) + (if events.last() is Release && shares_after(events)
            == 0 {
            1int
        } else {
            0int
        })
    }
}

/// A sequence of events a holder of shares can actually produce: before
/// every step at least one share is still out. Ownership enforces this
/// structurally — a share must be in hand to be retained from or released.
pub open spec fn event_trace_ok(events: Seq<ShareEvent>) -> bool {
    forall|i: int| 0 <= i < events.len() ==> shares_after(#[trigger] events.take(i)) >= 1
}

/// The destroy order fires exactly once, after the last release, whatever
/// the interleaving of retains and releases: along any producible event
/// sequence the count of destroy orders is one if all shares are gone and
/// zero otherwise — and when all shares are gone, it was the final event,
/// a release, that issued the single order.
pub proof fn lemma_destroy_exactly_once(events: Seq<ShareEvent>)
    requires
        event_trace_ok(events),
    ensures
        shares_after(events) >= 0,
        destroys_in(events) == (if shares_after(events) == 0 {
            1int
        } else {
            0int
        }),
        shares_after(events) == 0 ==> events.len() > 0 && events.last() is Release && destroys_in(
            events.drop_last(),
        ) == 0,
    decreases events.len(),
{
    if events.len() == 0 {
    } else {
        let prefix = events.drop_last();
        assert forall|i: int| 0 <= i < prefix.len() implies shares_after(
            #[trigger] prefix.take(i),
        ) >= 1 by {
            assert(prefix.take(i) =~= events.take(i));
            assert(shares_after(events.take(i)) >= 1);
        }
        lemma_destroy_exactly_once(prefix);
        assert(events.take(events.len() - 1) =~= prefix);
        assert(shares_after(prefix) >= 1);
    }
}

} // verus!
