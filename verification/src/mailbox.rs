//! The keyed correlation table for in-flight trade executions.
//!
//! Each execute-trade request registers a fresh identifier and waits for a
//! result to appear under it; the UI's report is delivered under the
//! identifier it was given; the entry is removed when the waiter collects
//! the result or gives up at its deadline. Keying by a fresh identifier is
//! the chosen resolution of the single-slot hazard: one in-flight request
//! can never capture or lose another's report, and a report for an entry
//! already removed is dropped without a trace, which is exactly what the
//! protocol asks of a result that arrives after the deadline.

use vstd::prelude::*;
use vstd::hash_map::HashMapWithView;

use crate::requests::{TradeResult, TradeResultView};

verus! {

broadcast use vstd::std_specs::hash::axiom_u64_obeys_hash_table_key_model;

/// One table entry: still waiting, or holding the reported outcome.
pub enum TradeSlot {
    Waiting,
    Delivered(TradeResult),
}

/// Ghost image of a [`TradeSlot`].
pub enum SlotView {
    Waiting,
    Delivered(TradeResultView),
}

impl View for TradeSlot {
    type V = SlotView;

    open spec fn view(&self) -> SlotView {
        match self {
            TradeSlot::Waiting => SlotView::Waiting,
            TradeSlot::Delivered(r) => SlotView::Delivered(r@),
        }
    }
}

/// What a delivery does to a table: a report for an identifier that is
/// present and still waiting fills that one slot; any other report leaves
/// the table untouched and is dropped.
pub open spec fn spec_deliver(m: Map<u64, SlotView>, id: u64, r: TradeResultView) -> (
    Map<u64, SlotView>,
    bool,
) {
    if m.dom().contains(id) && m[id] == SlotView::Waiting {
        (m.insert(id, SlotView::Delivered(r)), true)
    } else {
        (m, false)
    }
}

/// What collecting does to a table: a delivered result is removed and
/// handed out; a waiting or absent entry yields nothing and changes
/// nothing.
pub open spec fn spec_take(m: Map<u64, SlotView>, id: u64) -> (
    Map<u64, SlotView>,
    Option<TradeResultView>,
) {
    if m.dom().contains(id) && (m[id] matches SlotView::Delivered(r)) {
        (m.remove(id), match m[id] {
            SlotView::Delivered(r) => Some(r),
            SlotView::Waiting => None,
        })
    } else {
        (m, None)
    }
}

/// The table of in-flight trade executions, keyed by fresh identifiers.
pub struct PendingTable {
    slots: HashMapWithView<u64, TradeSlot>,
    next_id: u64,
}

impl View for PendingTable {
    type V = Map<u64, SlotView>;

    closed spec fn view(&self) -> Map<u64, SlotView> {
        Map::new(
            |k: u64| self.slots@.dom().contains(k),
            |k: u64| self.slots@[k]@,
        )
    }
}

impl PendingTable {
    /// Every identifier in the table was handed out earlier, so the next
    /// one is fresh.
    pub closed spec fn wf(self) -> bool {
        forall|k: u64| self.slots@.dom().contains(k) ==> k < self.next_id
    }

    /// Whether another identifier can still be handed out.
    pub closed spec fn spec_can_register(self) -> bool {
        self.next_id < u64::MAX
    }

    /// An empty table.
    pub fn new() -> (t: Self)
        ensures
            t@ == Map::<u64, SlotView>::empty(),
            t.wf(),
            t.spec_can_register(),
    {
        let t = PendingTable { slots: HashMapWithView::new(), next_id: 0 };
        proof {
            assert(t@ =~= Map::<u64, SlotView>::empty());
        }
        t
    }

    /// Whether another identifier can still be handed out; exhaustion is
    /// unreachable in practice but the caller must test it.
    pub fn has_capacity(&self) -> (r: bool)
        ensures
            r == self.spec_can_register(),
    {
        self.next_id < u64::MAX
    }

    /// Install a fresh waiting slot and hand its identifier out.
    pub fn register(&mut self) -> (id: u64)
        requires
            old(self).wf(),
            old(self).spec_can_register(),
        ensures
            final(self).wf(),
            !old(self)@.dom().contains(id),
            final(self)@ == old(self)@.insert(id, SlotView::Waiting),
    {
        let id = self.next_id;
        self.slots.insert(id, TradeSlot::Waiting);
        self.next_id = self.next_id + 1;
        proof {
            assert(final(self)@ =~= old(self)@.insert(id, SlotView::Waiting));
        }
        id
    }

    /// Deliver a reported outcome to the slot registered under `id`.
    /// Returns whether anything was waiting there; a report for a missing
    /// or already-filled slot is dropped and the table is unchanged.
    pub fn deliver(&mut self, id: u64, result: TradeResult) -> (delivered: bool)
        requires
            old(self).wf(),
        ensures
            final(self).wf(),
            final(self)@ == spec_deliver(old(self)@, id, result@).0,
            delivered == spec_deliver(old(self)@, id, result@).1,
    {
        let waiting = match self.slots.get(&id) {
            Some(slot) => match slot {
                TradeSlot::Waiting => true,
                TradeSlot::Delivered(_) => false,
            },
            None => false,
        };
        if waiting {
            self.slots.insert(id, TradeSlot::Delivered(result));
            proof {
                assert(final(self)@ =~= spec_deliver(old(self)@, id, result@).0);
            }
            true
        } else {
            proof {
                assert(final(self)@ =~= old(self)@);
            }
            false
        }
    }

    /// Collect the result delivered under `id`, removing its entry.
    /// Yields nothing while the slot is still waiting, and nothing ever
    /// again once the entry is gone.
    pub fn take(&mut self, id: u64) -> (r: Option<TradeResult>)
        requires
            old(self).wf(),
        ensures
            final(self).wf(),
            final(self)@ == spec_take(old(self)@, id).0,
            (match r {
                Some(res) => spec_take(old(self)@, id).1 == Some(res@),
                None => spec_take(old(self)@, id).1 == None::<TradeResultView>,
            }),
    {
        let delivered = match self.slots.get(&id) {
            Some(slot) => match slot {
                TradeSlot::Delivered(_) => true,
                TradeSlot::Waiting => false,
            },
            None => false,
        };
        if delivered {
            let removed = self.slots.remove(&id);
            proof {
                assert(final(self)@ =~= spec_take(old(self)@, id).0);
            }
            match removed {
                Some(TradeSlot::Delivered(res)) => Some(res),
                _ => {
                    proof {
                        assert(false);
                    }
                    None
                },
            }
        } else {
            proof {
                assert(final(self)@ =~= old(self)@);
            }
            None
        }
    }

    /// Remove the entry under `id` unconditionally; the waiter calls this
    /// at its deadline so the table never grows without bound.
    pub fn expire(&mut self, id: u64)
        requires
            old(self).wf(),
        ensures
            final(self).wf(),
            final(self)@ == old(self)@.remove(id),
    {
        let _ = self.slots.remove(&id);
        proof {
            assert(final(self)@ =~= old(self)@.remove(id));
        }
    }
}

/// Two registrations in flight at once hold distinct identifiers: the
/// second is fresh for the table that already holds the first.
pub proof fn lemma_fresh_registrations(m: Map<u64, SlotView>, id1: u64, id2: u64)
    requires
        !m.dom().contains(id1),
        !m.insert(id1, SlotView::Waiting).dom().contains(id2),
    ensures
        id1 != id2,
        m.insert(id1, SlotView::Waiting).insert(id2, SlotView::Waiting)[id1]
            == SlotView::Waiting,
        m.insert(id1, SlotView::Waiting).insert(id2, SlotView::Waiting)[id2]
            == SlotView::Waiting,
{
}

/// With two trades in flight, a report delivered under the first
/// identifier reaches exactly the first slot: it is accepted, it fills
/// that slot, and the second slot still waits untouched. The overlapping
/// requests of the single-slot hazard therefore cannot misroute a report.
pub proof fn lemma_no_misrouting(
    m: Map<u64, SlotView>,
    id1: u64,
    id2: u64,
    r: TradeResultView,
)
    requires
        id1 != id2,
        m.dom().contains(id1),
        m[id1] == SlotView::Waiting,
        m.dom().contains(id2),
        m[id2] == SlotView::Waiting,
    ensures
        spec_deliver(m, id1, r).1 == true,
        spec_deliver(m, id1, r).0[id1] == SlotView::Delivered(r),
        spec_deliver(m, id1, r).0[id2] == SlotView::Waiting,
{
}

/// What the waiter collects is exactly what the UI reported: for a slot
/// still waiting, delivery followed by collection hands back the
/// delivered outcome and clears the entry.
pub proof fn lemma_delivery_collected(m: Map<u64, SlotView>, id: u64, r: TradeResultView)
    requires
        m.dom().contains(id),
        m[id] == SlotView::Waiting,
    ensures
        spec_take(spec_deliver(m, id, r).0, id).1 == Some(r),
        spec_take(spec_deliver(m, id, r).0, id).0 =~= m.remove(id),
{
}

/// A report for an entry that was removed at its deadline is silently
/// dropped: nothing is delivered and the table does not change.
pub proof fn lemma_late_report_dropped(m: Map<u64, SlotView>, id: u64, r: TradeResultView)
    requires
        !m.dom().contains(id),
    ensures
        spec_deliver(m, id, r).0 == m,
        spec_deliver(m, id, r).1 == false,
{
}

/// Once an entry is removed, nothing can ever be collected under its
/// identifier again: after the deadline reply, the transaction can
/// produce no second outcome.
pub proof fn lemma_expired_yields_nothing(m: Map<u64, SlotView>, id: u64)
    requires
        !m.dom().contains(id),
    ensures
        spec_take(m, id).0 == m,
        spec_take(m, id).1 == None::<TradeResultView>,
{
}

} // verus!
