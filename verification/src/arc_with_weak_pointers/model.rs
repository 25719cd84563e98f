//! The mathematical model of one allocation, and what each atomic step does to it.

use vstd::prelude::*;

verus! {

/// Who holds what in one allocation.
///
/// Every handle carries a ticket: a number that the allocation gives out once.
#[verifier::ext_equal]
pub struct Ledger {
    /// The tickets of the live `MyArc` handles.
    pub strong: Set<nat>,
    /// The tickets of the live `WeakRef` handles, those inside a `MyArc` left out.
    pub weak: Set<nat>,
    /// The upgrades that have raised the strong count and not yet the allocation count. Each is
    /// mapped to the ticket of the `WeakRef` that it borrows.
    pub upgrading: Map<nat, nat>,
    /// The handle that took the strong count to zero and has yet to clear the data.
    pub clearing: Option<nat>,
    /// The next ticket to give out.
    pub next_ticket: nat,
}

/// The contents of one allocation.
#[verifier::ext_equal]
pub struct Block<T> {
    /// The strong count.
    pub data_ref_count: nat,
    /// The number of handles of either sort.
    pub alloc_count: nat,
    /// The shared value, until the last strong handle is gone.
    pub data: Option<T>,
    /// The handles.
    pub ledger: Ledger,
}

impl<T> Block<T> {
    /// The counters agree with the handles that exist, and the data is there exactly as long as
    /// the strong count is positive or the handle that took it to zero has yet to clear it.
    pub open spec fn wf(self) -> bool {
        let l = self.ledger;
        &&& l.strong.finite()
        &&& l.weak.finite()
        &&& l.upgrading.dom().finite()
        &&& self.alloc_count == l.strong.len() + l.weak.len()
        &&& self.data_ref_count == l.strong.len() + l.upgrading.dom().len()
        &&& forall|t: nat| #[trigger]
            l.strong.contains(t) ==> t < l.next_ticket && !l.weak.contains(t)
        &&& forall|t: nat| #[trigger] l.weak.contains(t) ==> t < l.next_ticket
        &&& forall|u: nat| #[trigger]
            l.upgrading.contains_key(u) ==> {
                &&& u < l.next_ticket
                &&& !l.strong.contains(u)
                &&& !l.weak.contains(u)
                &&& l.weak.contains(l.upgrading[u])
            }
        &&& l.clearing matches Some(t) ==> l.weak.contains(t) && self.data_ref_count == 0
        &&& self.data is Some <==> (self.data_ref_count > 0 || l.clearing is Some)
    }

    /// No operation is half done.
    pub open spec fn at_rest(self) -> bool {
        &&& self.ledger.upgrading.dom() =~= Set::<nat>::empty()
        &&& self.ledger.clearing is None
    }

    /// No upgrade that borrows the weak handle `t` is half done, and `t` does not have to clear
    /// the data first: the handle can go.
    pub open spec fn weak_is_idle(self, t: nat) -> bool {
        &&& forall|u: nat| #[trigger]
            self.ledger.upgrading.contains_key(u) ==> self.ledger.upgrading[u] != t
        &&& self.ledger.clearing != Some(t)
    }

    /// A new allocation: one strong handle, with ticket zero.
    pub open spec fn fresh(data: T) -> Block<T> {
        Block {
            data_ref_count: 1,
            alloc_count: 1,
            data: Some(data),
            ledger: Ledger {
                strong: set![0nat],
                weak: Set::empty(),
                upgrading: Map::empty(),
                clearing: None,
                next_ticket: 1,
            },
        }
    }

    /// The allocation count goes up by one, for a new weak handle.
    pub open spec fn weak_added(self) -> Block<T> {
        Block {
            alloc_count: self.alloc_count + 1,
            ledger: Ledger {
                weak: self.ledger.weak.insert(self.ledger.next_ticket),
                next_ticket: self.ledger.next_ticket + 1,
                ..self.ledger
            },
            ..self
        }
    }

    /// The strong count goes up by one, and the weak handle `t` turns into a strong one.
    pub open spec fn weak_made_strong(self, t: nat) -> Block<T> {
        Block {
            data_ref_count: self.data_ref_count + 1,
            ledger: Ledger {
                strong: self.ledger.strong.insert(t),
                weak: self.ledger.weak.remove(t),
                ..self.ledger
            },
            ..self
        }
    }

    /// The strong count goes down by one, and the strong handle `t` is left with its weak half.
    /// It has to clear the data if it was the last one.
    pub open spec fn strong_released(self, t: nat) -> Block<T> {
        Block {
            data_ref_count: (self.data_ref_count - 1) as nat,
            ledger: Ledger {
                strong: self.ledger.strong.remove(t),
                weak: self.ledger.weak.insert(t),
                clearing: if self.data_ref_count == 1 {
                    Some(t)
                } else {
                    self.ledger.clearing
                },
                ..self.ledger
            },
            ..self
        }
    }

    /// The data is dropped.
    pub open spec fn data_cleared(self) -> Block<T> {
        Block { data: None, ledger: Ledger { clearing: None, ..self.ledger }, ..self }
    }

    /// The allocation count goes down by one, and the weak handle `t` is gone.
    pub open spec fn weak_released(self, t: nat) -> Block<T> {
        Block {
            alloc_count: (self.alloc_count - 1) as nat,
            ledger: Ledger { weak: self.ledger.weak.remove(t), ..self.ledger },
            ..self
        }
    }

    /// The strong count goes up by one, for an upgrade of the weak handle `t`.
    pub open spec fn upgrade_claimed(self, t: nat) -> Block<T> {
        Block {
            data_ref_count: self.data_ref_count + 1,
            ledger: Ledger {
                upgrading: self.ledger.upgrading.insert(self.ledger.next_ticket, t),
                next_ticket: self.ledger.next_ticket + 1,
                ..self.ledger
            },
            ..self
        }
    }

    /// The allocation count goes up by one, and the upgrade `u` is a strong handle.
    pub open spec fn upgrade_finished(self, u: nat) -> Block<T> {
        Block {
            alloc_count: self.alloc_count + 1,
            ledger: Ledger {
                strong: self.ledger.strong.insert(u),
                upgrading: self.ledger.upgrading.remove(u),
                ..self.ledger
            },
            ..self
        }
    }

    /// The data is replaced in place.
    pub open spec fn data_written(self, data: T) -> Block<T> {
        Block { data: Some(data), ..self }
    }

    /// What is left of the allocation once the weak handle `t` is gone: nothing if it was the
    /// last handle.
    pub open spec fn after_weak_drop(self, t: nat) -> Option<Block<T>> {
        if self.alloc_count == 1 {
            None
        } else {
            Some(self.weak_released(t))
        }
    }

    /// What is left of the allocation once the strong handle `t` is gone.
    pub open spec fn after_strong_drop(self, t: nat) -> Option<Block<T>> {
        let released = self.strong_released(t);
        let cleared = if self.data_ref_count == 1 {
            released.data_cleared()
        } else {
            released
        };
        cleared.after_weak_drop(t)
    }

    /// The allocation once the strong handle has been cloned.
    pub open spec fn after_strong_clone(self) -> Block<T> {
        self.weak_added().weak_made_strong(self.ledger.next_ticket)
    }

    /// The allocation once the weak handle `t` has been upgraded.
    pub open spec fn after_upgrade(self, t: nat) -> Block<T> {
        self.upgrade_claimed(t).upgrade_finished(self.ledger.next_ticket)
    }
}

pub proof fn lemma_fresh_wf<T>(data: T)
    ensures
        Block::fresh(data).wf(),
{
    assert(set![0nat].len() == 1);
}

pub proof fn lemma_weak_added_wf<T>(b: Block<T>)
    requires
        b.wf(),
    ensures
        b.weak_added().wf(),
{
    assert(!b.ledger.weak.contains(b.ledger.next_ticket));
}

pub proof fn lemma_weak_made_strong_wf<T>(b: Block<T>, t: nat)
    requires
        b.wf(),
        b.data_ref_count > 0,
        b.ledger.weak.contains(t),
        b.weak_is_idle(t),
    ensures
        b.weak_made_strong(t).wf(),
{
    let p = b.weak_made_strong(t);
    assert(!b.ledger.strong.contains(t));
    assert forall|u: nat| #[trigger] p.ledger.upgrading.contains_key(u) implies p.ledger.weak.contains(
        p.ledger.upgrading[u],
    ) by {
        assert(b.ledger.upgrading.contains_key(u));
    }
}

pub proof fn lemma_strong_released_wf<T>(b: Block<T>, t: nat)
    requires
        b.wf(),
        b.ledger.strong.contains(t),
    ensures
        b.data_ref_count >= 1,
        b.strong_released(t).wf(),
{
    assert(!b.ledger.weak.contains(t));
    assert(b.ledger.strong.len() >= 1);
}

pub proof fn lemma_data_cleared_wf<T>(b: Block<T>)
    requires
        b.wf(),
        b.data_ref_count == 0,
    ensures
        b.data_cleared().wf(),
{
}

pub proof fn lemma_weak_released_wf<T>(b: Block<T>, t: nat)
    requires
        b.wf(),
        b.ledger.weak.contains(t),
        b.weak_is_idle(t),
    ensures
        b.alloc_count >= 1,
        b.weak_released(t).wf(),
{
    assert(b.ledger.weak.len() >= 1);
}

pub proof fn lemma_upgrade_claimed_wf<T>(b: Block<T>, t: nat)
    requires
        b.wf(),
        b.data_ref_count > 0,
        b.ledger.weak.contains(t),
    ensures
        b.upgrade_claimed(t).wf(),
{
    let u = b.ledger.next_ticket;
    assert(!b.ledger.upgrading.contains_key(u));
    assert(b.upgrade_claimed(t).ledger.upgrading.dom() =~= b.ledger.upgrading.dom().insert(u));
}

pub proof fn lemma_upgrade_finished_wf<T>(b: Block<T>, u: nat)
    requires
        b.wf(),
        b.ledger.upgrading.contains_key(u),
    ensures
        b.upgrade_finished(u).wf(),
{
    assert(b.upgrade_finished(u).ledger.upgrading.dom() =~= b.ledger.upgrading.dom().remove(u));
}

} // verus!
