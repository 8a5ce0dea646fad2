//! SSTORE: store a word read from memory under a key read from memory.
use vstd::prelude::*;
use crate::builder::{
    frame_kept, record, refs_since, stamped, step_header, undo_spec, Call, CircuitInputState, Error, ExecStep, TraceStep,
    MAX_OPERATIONS, STACK_CAPACITY,
};
use crate::opcodes::{cc_read, flag, flag_value, memory_reads, read_memory, record_memory_reads, stack_read};
use crate::operation::{
    CallContextField, CallContextOp, Op, OpRef, OpView, RW, StackOp, StorageOp,
    StorageOpView, TxAccessListAccountStorageOp, TxAccessListAccountStorageOpView, TxRefundOp,
};
use crate::word::{bytes_eq, copy_bytes, is_zero, is_zero_spec};

verus! {

/// Refund for clearing a slot that was set when the transaction began.
pub const SSTORE_CLEARS_SCHEDULE: u64 = 4800;

/// Refund for restoring a slot that was zero when the transaction began.
pub const SSTORE_SET_REFUND: u64 = 19900;

/// Refund for restoring a slot that was nonzero when the transaction began.
pub const SSTORE_RESET_REFUND: u64 = 2800;

/// The number of bytes of a key or a value.
pub const WORD_LEN: u64 = 32;

/// The number of operations of an SSTORE step.
pub const SSTORE_OPS: u64 = 74;

pub open spec fn checked_add_spec(a: u64, b: u64) -> Option<u64> {
    if a + b <= u64::MAX {
        Some((a + b) as u64)
    } else {
        None
    }
}

pub open spec fn checked_sub_spec(a: u64, b: u64) -> Option<u64> {
    if a >= b {
        Some((a - b) as u64)
    } else {
        None
    }
}

/// The refund counter after storing `value` into a slot that holds
/// `current` and held `committed` when the transaction began; `None` where
/// the counter would leave its range.
pub open spec fn sstore_refund(refund: u64, value: Seq<u8>, current: Seq<u8>, committed: Seq<u8>) -> Option<u64> {
    if current == value {
        Some(refund)
    } else if committed == current {
        if !is_zero_spec(committed) && is_zero_spec(value) {
            checked_add_spec(refund, SSTORE_CLEARS_SCHEDULE)
        } else {
            Some(refund)
        }
    } else {
        let r1 = if !is_zero_spec(committed) {
            if is_zero_spec(current) {
                checked_sub_spec(refund, SSTORE_CLEARS_SCHEDULE)
            } else if is_zero_spec(value) {
                checked_add_spec(refund, SSTORE_CLEARS_SCHEDULE)
            } else {
                Some(refund)
            }
        } else {
            Some(refund)
        };
        match r1 {
            None => None,
            Some(r) => if committed == value {
                if is_zero_spec(committed) {
                    checked_add_spec(r, SSTORE_SET_REFUND)
                } else {
                    checked_add_spec(r, SSTORE_RESET_REFUND)
                }
            } else {
                Some(r)
            },
        }
    }
}

fn checked_add(a: u64, b: u64) -> (r: Option<u64>)
    ensures
        r == checked_add_spec(a, b),
{
    if a <= u64::MAX - b {
        Some(a + b)
    } else {
        None
    }
}

/// The refund counter after an SSTORE.
pub fn compute_refund(refund: u64, value: &Vec<u8>, current: &Vec<u8>, committed: &Vec<u8>) -> (r: Option<u64>)
    ensures
        r == sstore_refund(refund, value@, current@, committed@),
{
    if bytes_eq(current, value) {
        return Some(refund);
    }
    let committed_zero = is_zero(committed);
    if bytes_eq(committed, current) {
        if !committed_zero && is_zero(value) {
            return checked_add(refund, SSTORE_CLEARS_SCHEDULE);
        }
        return Some(refund);
    }
    let mut r = refund;
    if !committed_zero {
        if is_zero(current) {
            if r < SSTORE_CLEARS_SCHEDULE {
                return None;
            }
            r = r - SSTORE_CLEARS_SCHEDULE;
        } else if is_zero(value) {
            match checked_add(r, SSTORE_CLEARS_SCHEDULE) {
                Some(x) => {
                    r = x;
                },
                None => {
                    return None;
                },
            }
        }
    }
    if bytes_eq(committed, value) {
        if committed_zero {
            checked_add(r, SSTORE_SET_REFUND)
        } else {
            checked_add(r, SSTORE_RESET_REFUND)
        }
    } else {
        Some(r)
    }
}

/// The key an SSTORE step stores under: the word at the second operand.
pub open spec fn sstore_key(s: &CircuitInputState, t: TraceStep) -> Seq<u8> {
    s.memory@.subrange(t.nth_last_spec(1) as int, t.nth_last_spec(1) + WORD_LEN)
}

/// The value an SSTORE step stores: the word at the first operand.
pub open spec fn sstore_value(s: &CircuitInputState, t: TraceStep) -> Seq<u8> {
    s.memory@.subrange(t.nth_last_spec(0) as int, t.nth_last_spec(0) + WORD_LEN)
}

/// The refund counter after an SSTORE step.
pub open spec fn sstore_new_refund(s: &CircuitInputState, t: TraceStep) -> Option<u64> {
    let key = sstore_key(s, t);
    sstore_refund(
        s.sdb.refund,
        sstore_value(s, t),
        s.sdb.storage_value(s.call.address, key),
        s.sdb.committed_value(s.call.address, key),
    )
}

/// Why an SSTORE step cannot be built, checked in this order: a missing
/// lookahead entry or operand, an operand word outside memory, a refund
/// counter out of range or not the one the lookahead entry reports, or a
/// lookahead memory other than the unchanged memory.
pub open spec fn sstore_error(s: &CircuitInputState, steps: Seq<TraceStep>) -> Option<Error> {
    if steps.len() < 2 || steps[0].stack@.len() < 2 {
        Some(Error::MalformedTrace)
    } else if steps[0].stack@.len() > STACK_CAPACITY {
        Some(Error::OutOfRangeAccess)
    } else if steps[0].nth_last_spec(1) + WORD_LEN > s.memory@.len() || steps[0].nth_last_spec(0)
        + WORD_LEN > s.memory@.len() {
        Some(Error::OutOfRangeAccess)
    } else {
        match sstore_new_refund(s, steps[0]) {
            None => Some(Error::MalformedTrace),
            Some(r) => if steps[1].refund != r || steps[1].memory@ != s.memory@ {
                Some(Error::MalformedTrace)
            } else {
                None
            },
        }
    }
}

/// The operations of an SSTORE step, in order: five call-context reads,
/// the two operand reads, the storage write, the slot's access-list write,
/// the refund write, then the key's and the value's bytes read back.
pub open spec fn sstore_ops(s: &CircuitInputState, t: TraceStep, new_refund: u64) -> Seq<(RW, OpView)> {
    let c = s.call;
    let key = sstore_key(s, t);
    let value = sstore_value(s, t);
    seq![
        cc_read(c.call_id, CallContextField::TxId, s.tx_id),
        cc_read(c.call_id, CallContextField::IsStatic, flag(c.is_static)),
        cc_read(c.call_id, CallContextField::RwCounterEndOfReversion, c.rw_counter_end_of_reversion),
        cc_read(c.call_id, CallContextField::IsPersistent, flag(c.is_persistent)),
        cc_read(c.call_id, CallContextField::CalleeAddress, c.address),
        stack_read(c.call_id, t.nth_last_filled_spec(0), t.nth_last_spec(0)),
        stack_read(c.call_id, t.nth_last_filled_spec(1), t.nth_last_spec(1)),
        (RW::Write, OpView::Storage(StorageOpView {
            address: c.address,
            key,
            value,
            value_prev: s.sdb.storage_value(c.address, key),
            tx_id: s.tx_id,
            committed_value: s.sdb.committed_value(c.address, key),
        })),
        (RW::Write, OpView::TxAccessListAccountStorage(TxAccessListAccountStorageOpView {
            tx_id: s.tx_id,
            address: c.address,
            key,
            is_warm: true,
            is_warm_prev: s.sdb.slot_is_warm(c.address, key),
        })),
        (RW::Write, OpView::TxRefund(TxRefundOp { tx_id: s.tx_id, value: new_refund, value_prev: s.sdb.refund })),
    ] + memory_reads(c.call_id, t.nth_last_spec(1) as int, key) + memory_reads(
        c.call_id,
        t.nth_last_spec(0) as int,
        value,
    )
}

/// What a built SSTORE step guarantees, for success and for each error.
pub open spec fn sstore_post(
    s: &CircuitInputState,
    f: &CircuitInputState,
    steps: Seq<TraceStep>,
    r: Result<ExecStep, Error>,
) -> bool {
    &&& r is Err <==> sstore_error(s, steps) is Some
    &&& r is Err ==> r->Err_0 == sstore_error(s, steps)->0 && *f == *s
    &&& r is Ok ==> {
        let t = steps[0];
        let key = sstore_key(s, t);
        let value = sstore_value(s, t);
        let new_refund = sstore_new_refund(s, t)->0;
        let step = r->Ok_0;
        &&& f.wf()
        &&& f.container.ops() == s.container.ops() + stamped(
            s.container.ops@.len(),
            sstore_ops(s, t, new_refund),
        )
        &&& refs_since(&f.container, step.bus_mapping_instance@, s.container.ops@.len())
        &&& step.bus_mapping_instance@.len() == SSTORE_OPS
        &&& step.rwc == s.container.ops@.len() + 1
        &&& step.reversible_write_counter == s.call.reversible_write_counter
        &&& step.reversible_write_counter_delta == 3
        &&& forall|a: u64, k: Seq<u8>| #[trigger] f.sdb.storage_value(a, k) == if a
            == s.call.address && k == key {
            value
        } else {
            s.sdb.storage_value(a, k)
        }
        &&& forall|a: u64, k: Seq<u8>| #[trigger] f.sdb.slot_is_warm(a, k) == ((a == s.call.address
            && k == key) || s.sdb.slot_is_warm(a, k))
        &&& f.sdb.warm_accounts == s.sdb.warm_accounts
        &&& f.sdb.refund == new_refund
        &&& f.memory == s.memory
        &&& f.memory@ == steps[1].memory@
        &&& f.copy_events == s.copy_events
        &&& f.call == (Call {
            reversible_write_counter: (s.call.reversible_write_counter + 3) as u64,
            ..s.call
        })
        &&& {
            let ops = sstore_ops(s, t, new_refund);
            f.journal_view() == s.journal_view() + seq![
                undo_spec(ops[7].1),
                undo_spec(ops[8].1),
                undo_spec(ops[9].1),
            ]
        }
        &&& frame_kept(s, f)
        &&& step_header(s, t, &step)
    }
}

/// Handler of SSTORE.
pub struct Sstore;

impl Sstore {
    /// Builds the step of an SSTORE from the trace window `steps`: the
    /// entry of the instruction and the lookahead entry after it.
    pub fn gen_associated_ops(state: &mut CircuitInputState, steps: &[TraceStep]) -> (r: Result<ExecStep, Error>)
        requires
            old(state).wf(),
            old(state).container.ops@.len() + SSTORE_OPS <= MAX_OPERATIONS,
        ensures
            sstore_post(old(state), final(state), steps@, r),
    {
        if steps.len() < 2 || steps[0].stack.len() < 2 {
            return Err(Error::MalformedTrace);
        }
        let t = &steps[0];
        if t.stack.len() as u64 > STACK_CAPACITY {
            return Err(Error::OutOfRangeAccess);
        }
        let value_offset = t.nth_last(0);
        let key_offset = t.nth_last(1);
        let mem_len = state.memory.len() as u64;
        if mem_len < WORD_LEN || key_offset > mem_len - WORD_LEN || value_offset > mem_len - WORD_LEN {
            return Err(Error::OutOfRangeAccess);
        }
        let key = read_memory(&state.memory, key_offset, WORD_LEN);
        let value = read_memory(&state.memory, value_offset, WORD_LEN);
        let address = state.call.address;
        let value_prev = state.sdb.get_storage(address, &key);
        let committed_value = state.sdb.get_committed_storage(address, &key);
        let new_refund = match compute_refund(state.sdb.refund, &value, &value_prev, &committed_value) {
            Some(x) => x,
            None => {
                return Err(Error::MalformedTrace);
            },
        };
        if steps[1].refund != new_refund || !bytes_eq(&steps[1].memory, &state.memory) {
            return Err(Error::MalformedTrace);
        }
        let is_warm = state.sdb.check_account_storage_in_access_list(address, &key);

        let ghost s = *old(state);
        let ghost base = state.container.ops();
        let mut step = state.new_step(t);
        let mut refs: Vec<OpRef> = Vec::new();
        let mut d: Ghost<Seq<(RW, OpView)>> = Ghost(Seq::empty());
        assert(base + stamped(base.len(), d@) =~= base);
        let call_id = state.call.call_id;
        let tx_id = state.tx_id;
        d = record(&mut state.container, &mut refs, RW::Read, Op::CallContext(CallContextOp {
            call_id, field: CallContextField::TxId, value: tx_id }), Ghost(base), d);
        d = record(&mut state.container, &mut refs, RW::Read, Op::CallContext(CallContextOp {
            call_id, field: CallContextField::IsStatic, value: flag_value(state.call.is_static) }), Ghost(base), d);
        d = record(&mut state.container, &mut refs, RW::Read, Op::CallContext(CallContextOp {
            call_id, field: CallContextField::RwCounterEndOfReversion,
            value: state.call.rw_counter_end_of_reversion }), Ghost(base), d);
        d = record(&mut state.container, &mut refs, RW::Read, Op::CallContext(CallContextOp {
            call_id, field: CallContextField::IsPersistent, value: flag_value(state.call.is_persistent) }),
            Ghost(base), d);
        d = record(&mut state.container, &mut refs, RW::Read, Op::CallContext(CallContextOp {
            call_id, field: CallContextField::CalleeAddress, value: address }), Ghost(base), d);
        d = record(&mut state.container, &mut refs, RW::Read, Op::Stack(StackOp {
            call_id, address: t.nth_last_filled(0), value: value_offset }), Ghost(base), d);
        d = record(&mut state.container, &mut refs, RW::Read, Op::Stack(StackOp {
            call_id, address: t.nth_last_filled(1), value: key_offset }), Ghost(base), d);

        let storage_op = Op::Storage(StorageOp {
            address,
            key: copy_bytes(&key),
            value: copy_bytes(&value),
            value_prev,
            tx_id,
            committed_value,
        });
        d = state.push_op_reversible(&mut refs, storage_op, Ghost(base), d);
        state.sdb.set_storage(address, &key, &value);
        let ghost sdb1 = state.sdb;

        d = state.push_op_reversible(&mut refs, Op::TxAccessListAccountStorage(
            TxAccessListAccountStorageOp { tx_id, address, key: copy_bytes(&key), is_warm: true,
                is_warm_prev: is_warm }), Ghost(base), d);
        state.sdb.add_account_storage_to_access_list(address, &key);
        let ghost sdb2 = state.sdb;

        let refund_op = Op::TxRefund(TxRefundOp { tx_id, value: new_refund, value_prev: state.sdb.refund });
        d = state.push_op_reversible(&mut refs, refund_op, Ghost(base), d);
        state.sdb.refund = new_refund;

        d = record_memory_reads(&mut state.container, &mut refs, call_id, key_offset, &key, Ghost(base), d);
        d = record_memory_reads(&mut state.container, &mut refs, call_id, value_offset, &value, Ghost(base), d);
        assert(d@ =~= sstore_ops(&s, steps@[0], new_refund));
        step.bus_mapping_instance = refs;
        step.reversible_write_counter_delta = 3;
        assert(state.wf());
        assert(state.sdb.warm_slots == sdb2.warm_slots);
        assert forall|a: u64, k: Seq<u8>| #[trigger] state.sdb.slot_is_warm(a, k) == ((a == address
            && k == key@) || s.sdb.slot_is_warm(a, k)) by {
            assert(sdb2.slot_is_warm(a, k) == state.sdb.slot_is_warm(a, k));
        }
        assert(state.journal_view() =~= s.journal_view() + seq![
            undo_spec(d@[7].1),
            undo_spec(d@[8].1),
            undo_spec(d@[9].1),
        ]);
        assert forall|a: u64, k: Seq<u8>| #[trigger] state.sdb.storage_value(a, k) == if a
            == address && k == key@ {
            value@
        } else {
            s.sdb.storage_value(a, k)
        } by {
            assert(sdb1.storage_value(a, k) == state.sdb.storage_value(a, k));
        }
        Ok(step)
    }
}

} // verus!
