//! Replaying a step's operations on the state before the step gives the
//! state after it, which is the memory the trace's lookahead entry reports.
use vstd::prelude::*;
use crate::builder::{CircuitInputState, ExecStep, TraceStep};
use crate::calldataload::{calldataload_ops, calldataload_post, CALLDATA_CHUNK_LEN};
use crate::extcodesize::{extcodesize_ops, extcodesize_post, CODESIZE_LEN};
use crate::opcodes::{extended, memory_writes, written};
use crate::operation::{OpView, RW};
use crate::sha3::{keccak256_of, sha3_input, sha3_memory, sha3_ops, sha3_post};
use crate::sstore::{sstore_new_refund, sstore_ops, sstore_post};
use crate::builder::Error;

verus! {

/// Memory after replaying, in order, the memory writes among `ops`; other
/// operations leave it as it is.
pub open spec fn replay_memory(m: Seq<u8>, ops: Seq<(RW, OpView)>) -> Seq<u8>
    decreases ops.len(),
{
    if ops.len() == 0 {
        m
    } else {
        let m1 = match ops[0] {
            (RW::Write, OpView::Memory(o)) => if o.address < m.len() {
                m.update(o.address as int, o.value)
            } else {
                m
            },
            _ => m,
        };
        replay_memory(m1, ops.drop_first())
    }
}

/// Whether no operation of `ops` writes memory.
pub open spec fn no_memory_writes(ops: Seq<(RW, OpView)>) -> bool {
    forall|i: int| 0 <= i < ops.len() ==> !((#[trigger] ops[i]).0 == RW::Write && ops[i].1 is Memory)
}

proof fn lemma_replay_concat(m: Seq<u8>, a: Seq<(RW, OpView)>, b: Seq<(RW, OpView)>)
    ensures
        replay_memory(m, a + b) == replay_memory(replay_memory(m, a), b),
    decreases a.len(),
{
    if a.len() == 0 {
        assert(a + b =~= b);
    } else {
        assert((a + b).drop_first() =~= a.drop_first() + b);
        assert((a + b)[0] == a[0]);
        let m1 = match a[0] {
            (RW::Write, OpView::Memory(o)) => if o.address < m.len() {
                m.update(o.address as int, o.value)
            } else {
                m
            },
            _ => m,
        };
        lemma_replay_concat(m1, a.drop_first(), b);
    }
}

proof fn lemma_replay_no_writes(m: Seq<u8>, ops: Seq<(RW, OpView)>)
    requires
        no_memory_writes(ops),
    ensures
        replay_memory(m, ops) == m,
    decreases ops.len(),
{
    if ops.len() > 0 {
        assert(!(ops[0].0 == RW::Write && ops[0].1 is Memory));
        assert forall|i: int| 0 <= i < ops.drop_first().len() implies !((#[trigger] ops.drop_first()[i]).0
            == RW::Write && ops.drop_first()[i].1 is Memory) by {
            assert(ops.drop_first()[i] == ops[i + 1]);
        }
        lemma_replay_no_writes(m, ops.drop_first());
    }
}

proof fn lemma_replay_writes(m: Seq<u8>, call_id: u64, offset: int, bytes: Seq<u8>)
    requires
        0 <= offset,
        offset + bytes.len() <= m.len(),
        m.len() <= u64::MAX,
    ensures
        replay_memory(m, memory_writes(call_id, offset, bytes)) == written(m, offset, bytes),
    decreases bytes.len(),
{
    let ws = memory_writes(call_id, offset, bytes);
    if bytes.len() == 0 {
        assert(written(m, offset, bytes) =~= m);
    } else {
        let m1 = m.update(offset, bytes[0]);
        let rest = bytes.drop_first();
        assert(ws.drop_first() =~= memory_writes(call_id, offset + 1, rest));
        lemma_replay_writes(m1, call_id, offset + 1, rest);
        assert(written(m1, offset + 1, rest) =~= written(m, offset, bytes));
    }
}

/// Law: replaying the operations of a built CALLDATALOAD step on the memory
/// before it, grown to hold the destination, gives the memory after it,
/// the lookahead entry's memory.
pub proof fn lemma_calldataload_round_trip(
    s: &CircuitInputState,
    f: &CircuitInputState,
    steps: Seq<TraceStep>,
    r: Result<ExecStep, Error>,
)
    requires
        s.wf(),
        calldataload_post(s, f, steps, r),
        r is Ok,
    ensures
        replay_memory(
            extended(s.memory@, steps[0].nth_last_spec(0) + CALLDATA_CHUNK_LEN),
            calldataload_ops(s, steps[0]),
        ) == f.memory@,
        f.memory@ == steps[1].memory@,
{
    let t = steps[0];
    let ops = calldataload_ops(s, t);
    let m = extended(s.memory@, t.nth_last_spec(0) + CALLDATA_CHUNK_LEN);
    let w = memory_writes(s.call.call_id, t.nth_last_spec(0) as int, crate::calldataload::calldata_word(s.call_data@, t.nth_last_spec(1)));
    let pre = ops.subrange(0, ops.len() - 32);
    assert(ops =~= pre + w);
    assert forall|i: int| 0 <= i < pre.len() implies !((#[trigger] pre[i]).0 == RW::Write && pre[i].1 is Memory) by {
    }
    lemma_replay_concat(m, pre, w);
    lemma_replay_no_writes(m, pre);
    lemma_replay_writes(m, s.call.call_id, t.nth_last_spec(0) as int, crate::calldataload::calldata_word(s.call_data@, t.nth_last_spec(1)));
}

/// Law: replaying the operations of a built SHA3 step on the memory before
/// it, grown to hold the window and the destination, gives the memory after
/// it, the lookahead entry's memory.
pub proof fn lemma_sha3_round_trip(
    s: &CircuitInputState,
    f: &CircuitInputState,
    steps: Seq<TraceStep>,
    r: Result<ExecStep, Error>,
)
    requires
        s.wf(),
        sha3_post(s, f, steps, r),
        r is Ok,
    ensures
        replay_memory(
            sha3_memory(s, steps[0]),
            sha3_ops(s, steps[0], keccak256_of(sha3_input(s, steps[0]))),
        ) == f.memory@,
        f.memory@ == steps[1].memory@,
{
    let t = steps[0];
    let digest = keccak256_of(sha3_input(s, t));
    let ops = sha3_ops(s, t, digest);
    let m = sha3_memory(s, t);
    let w = memory_writes(s.call.call_id, t.nth_last_spec(0) as int, digest);
    let pre = ops.subrange(0, ops.len() - w.len());
    assert(ops =~= pre + w);
    assert forall|i: int| 0 <= i < pre.len() implies !((#[trigger] pre[i]).0 == RW::Write && pre[i].1 is Memory) by {
    }
    lemma_replay_concat(m, pre, w);
    lemma_replay_no_writes(m, pre);
    lemma_replay_writes(m, s.call.call_id, t.nth_last_spec(0) as int, digest);
}

/// Law: replaying the operations of a built EXTCODESIZE step on the memory
/// before it, grown to hold the destination, gives the memory after it,
/// the lookahead entry's memory.
pub proof fn lemma_extcodesize_round_trip(
    s: &CircuitInputState,
    f: &CircuitInputState,
    steps: Seq<TraceStep>,
    r: Result<ExecStep, Error>,
)
    requires
        s.wf(),
        extcodesize_post(s, f, steps, r),
        r is Ok,
    ensures
        replay_memory(
            extended(s.memory@, steps[0].nth_last_spec(0) + CODESIZE_LEN),
            extcodesize_ops(s, steps[0]),
        ) == f.memory@,
        f.memory@ == steps[1].memory@,
{
    let t = steps[0];
    let ops = extcodesize_ops(s, t);
    let m = extended(s.memory@, t.nth_last_spec(0) + CODESIZE_LEN);
    let bytes = crate::extcodesize::size_bytes(crate::extcodesize::code_size_of(s, t.nth_last_spec(1)));
    let w = memory_writes(s.call.call_id, t.nth_last_spec(0) as int, bytes);
    let pre = ops.subrange(0, ops.len() - w.len());
    assert(ops =~= pre + w);
    assert forall|i: int| 0 <= i < pre.len() implies !((#[trigger] pre[i]).0 == RW::Write && pre[i].1 is Memory) by {
    }
    lemma_replay_concat(m, pre, w);
    lemma_replay_no_writes(m, pre);
    lemma_replay_writes(m, s.call.call_id, t.nth_last_spec(0) as int, bytes);
}

/// Law: an SSTORE step writes no memory, so replaying its operations on the
/// memory before it gives the memory after it,
/// the lookahead entry's memory.
pub proof fn lemma_sstore_round_trip(
    s: &CircuitInputState,
    f: &CircuitInputState,
    steps: Seq<TraceStep>,
    r: Result<ExecStep, Error>,
)
    requires
        s.wf(),
        sstore_post(s, f, steps, r),
        r is Ok,
    ensures
        replay_memory(s.memory@, sstore_ops(s, steps[0], sstore_new_refund(s, steps[0])->0)) == f.memory@,
        f.memory@ == steps[1].memory@,
{
    let ops = sstore_ops(s, steps[0], sstore_new_refund(s, steps[0])->0);
    assert forall|i: int| 0 <= i < ops.len() implies !((#[trigger] ops[i]).0 == RW::Write && ops[i].1 is Memory) by {
    }
    lemma_replay_no_writes(s.memory@, ops);
}

} // verus!
