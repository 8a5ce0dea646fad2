//! What a reverted call's undo operations do: replayed after the call's
//! reversible writes, they give back the state the call started from.
use vstd::prelude::*;
use crate::builder::{is_reversible, undo_spec};
use crate::builder::{CircuitInputState, Error, ExecStep, TraceStep};
use crate::operation::{AccountField, OpView};
use crate::sstore::{sstore_new_refund, sstore_ops, sstore_post};
use crate::state::StateDb;

verus! {

/// The part of the state that reversible writes change.
pub struct RevState {
    pub storage: Map<(u64, Seq<u8>), Seq<u8>>,
    pub refund: Map<u64, u64>,
    pub account: Map<(u64, AccountField), Seq<u8>>,
}

/// Whether a write can be applied to a state: it is reversible and its
/// previous value is the value it finds.
pub open spec fn applies(s: RevState, op: OpView) -> bool {
    match op {
        OpView::Storage(o) => s.storage.contains_key((o.address, o.key)) && s.storage[(
            o.address,
            o.key,
        )] == o.value_prev,
        OpView::TxRefund(o) => s.refund.contains_key(o.tx_id) && s.refund[o.tx_id] == o.value_prev,
        OpView::Account(o) => s.account.contains_key((o.address, o.field)) && s.account[(
            o.address,
            o.field,
        )] == o.value_prev,
        _ => false,
    }
}

/// The state after a write.
pub open spec fn apply(s: RevState, op: OpView) -> RevState {
    match op {
        OpView::Storage(o) => RevState { storage: s.storage.insert((o.address, o.key), o.value), ..s },
        OpView::TxRefund(o) => RevState { refund: s.refund.insert(o.tx_id, o.value), ..s },
        OpView::Account(o) => RevState { account: s.account.insert((o.address, o.field), o.value), ..s },
        _ => s,
    }
}

/// The state after a sequence of writes, in order.
pub open spec fn replay(s: RevState, ops: Seq<OpView>) -> RevState
    decreases ops.len(),
{
    if ops.len() == 0 {
        s
    } else {
        replay(apply(s, ops[0]), ops.drop_first())
    }
}

/// Each write of the sequence applies to the state the earlier ones left.
pub open spec fn chained(s: RevState, ops: Seq<OpView>) -> bool
    decreases ops.len(),
{
    ops.len() == 0 || (applies(s, ops[0]) && chained(apply(s, ops[0]), ops.drop_first()))
}

/// The undo operations of a sequence of writes, latest write first.
pub open spec fn undo_ops(ops: Seq<OpView>) -> Seq<OpView> {
    Seq::new(ops.len(), |i: int| undo_spec(ops[ops.len() - 1 - i]))
}

proof fn lemma_replay_concat(s: RevState, a: Seq<OpView>, b: Seq<OpView>)
    ensures
        replay(s, a + b) == replay(replay(s, a), b),
    decreases a.len(),
{
    if a.len() == 0 {
        assert(a + b =~= b);
    } else {
        assert((a + b).drop_first() =~= a.drop_first() + b);
        lemma_replay_concat(apply(s, a[0]), a.drop_first(), b);
    }
}

proof fn lemma_undo_one(s: RevState, op: OpView)
    requires
        applies(s, op),
    ensures
        is_reversible(op),
        apply(apply(s, op), undo_spec(op)) == s,
{
    match op {
        OpView::Storage(o) => {
            assert(apply(apply(s, op), undo_spec(op)).storage =~= s.storage);
        },
        OpView::TxRefund(o) => {
            assert(apply(apply(s, op), undo_spec(op)).refund =~= s.refund);
        },
        OpView::Account(o) => {
            assert(apply(apply(s, op), undo_spec(op)).account =~= s.account);
        },
        _ => {},
    }
}

/// Law: replaying a call's reversible writes in order, each finding the
/// value it records as previous, and then their undo operations, latest
/// first, gives back the state the call started from.
pub proof fn lemma_revert_restores(s: RevState, writes: Seq<OpView>)
    requires
        chained(s, writes),
    ensures
        replay(replay(s, writes), undo_ops(writes)) == s,
    decreases writes.len(),
{
    if writes.len() > 0 {
        let x = writes[0];
        let w = writes.drop_first();
        let s1 = apply(s, x);
        lemma_revert_restores(s1, w);
        assert(undo_ops(writes) =~= undo_ops(w) + seq![undo_spec(x)]);
        lemma_replay_concat(replay(s, writes), undo_ops(w), seq![undo_spec(x)]);
        assert(replay(s, writes) == replay(s1, w));
        lemma_undo_one(s, x);
        let t = replay(replay(s1, w), undo_ops(w));
        assert(seq![undo_spec(x)].drop_first() =~= Seq::<OpView>::empty());
        let one = seq![undo_spec(x)];
        assert(one[0] == undo_spec(x));
        assert(replay(apply(t, undo_spec(x)), one.drop_first()) == apply(t, undo_spec(x)));
        assert(replay(t, one) == apply(t, undo_spec(x)));
    } else {
        assert(undo_ops(writes) =~= Seq::<OpView>::empty());
    }
}

/// The reversible part of a state snapshot, for the transaction `tx_id`.
pub open spec fn rev_view(sdb: StateDb, tx_id: u64) -> RevState {
    RevState {
        storage: Map::new(|k: (u64, Seq<u8>)| true, |k: (u64, Seq<u8>)| sdb.storage_value(k.0, k.1)),
        refund: map![tx_id => sdb.refund],
        account: Map::empty(),
    }
}

/// The value writes of an SSTORE step: its storage write and its refund
/// write. Its access-list write is journaled too, but undoing it never makes
/// the slot cold, so it has no part in the values a revert restores.
pub open spec fn sstore_value_writes(s: &CircuitInputState, t: TraceStep) -> Seq<OpView> {
    let ops = sstore_ops(s, t, sstore_new_refund(s, t)->0);
    seq![ops[7].1, ops[9].1]
}

/// Law: the value writes of a built SSTORE step each find the value they
/// record as previous, take the state before the step to the state
/// after it, and their undo operations, latest first, take it back.
pub proof fn lemma_sstore_revert_restores(
    s: &CircuitInputState,
    f: &CircuitInputState,
    steps: Seq<TraceStep>,
    r: Result<ExecStep, Error>,
)
    requires
        sstore_post(s, f, steps, r),
        r is Ok,
    ensures
        chained(rev_view(s.sdb, s.tx_id), sstore_value_writes(s, steps[0])),
        replay(rev_view(s.sdb, s.tx_id), sstore_value_writes(s, steps[0])) == rev_view(
            f.sdb,
            s.tx_id,
        ),
        replay(rev_view(f.sdb, s.tx_id), undo_ops(sstore_value_writes(s, steps[0])))
            == rev_view(s.sdb, s.tx_id),
{
    let t = steps[0];
    let w = sstore_value_writes(s, t);
    let v0 = rev_view(s.sdb, s.tx_id);
    let v1 = apply(v0, w[0]);
    let v2 = apply(v1, w[1]);
    assert(w.drop_first()[0] == w[1]);
    assert(w.drop_first().drop_first() =~= Seq::<OpView>::empty());
    assert(chained(v2, w.drop_first().drop_first()));
    assert(applies(v1, w[1]));
    assert(chained(v1, w.drop_first()));
    assert(applies(v0, w[0]));
    assert(replay(v2, w.drop_first().drop_first()) == v2);
    assert(replay(v1, w.drop_first()) == v2);
    assert(replay(v0, w) == v2);
    let vf = rev_view(f.sdb, s.tx_id);
    assert(v2.storage =~= vf.storage);
    assert(v2.refund =~= vf.refund);
    assert(v2.account =~= vf.account);
    lemma_revert_restores(v0, w);
}

} // verus!
