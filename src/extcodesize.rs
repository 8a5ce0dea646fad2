//! EXTCODESIZE: write the code length of an account to memory.
use vstd::prelude::*;
use crate::builder::{
    frame_kept, record, refs_since, stamped, step_header, undo_spec, Call, CircuitInputState, Error, ExecStep, TraceStep, MAX_OPERATIONS,
    MEMORY_LIMIT, STACK_CAPACITY,
};
use crate::opcodes::{
    cc_read, extend_memory, matches_after_write, extended, flag, flag_value, memory_writes, record_memory_writes,
    stack_read, written,
};
use crate::operation::{
    AccountField, AccountOp, AccountOpView, CallContextField, CallContextOp, Op, OpRef, OpView, RW,
    StackOp, TxAccessListAccountOp,
};
use crate::word::{copy_bytes, zero_word};

verus! {

/// The number of bytes of the written code length.
pub const CODESIZE_LEN: u64 = 4;

/// The number of operations of an EXTCODESIZE step.
pub const EXTCODESIZE_OPS: u64 = 11;

/// The low four bytes of a length, most significant first.
pub open spec fn size_bytes(n: nat) -> Seq<u8> {
    seq![
        ((n / 0x100_0000) % 0x100) as u8,
        ((n / 0x1_0000) % 0x100) as u8,
        ((n / 0x100) % 0x100) as u8,
        (n % 0x100) as u8,
    ]
}

/// The code hash of an account, zero for one that does not exist.
pub open spec fn code_hash_of(s: &CircuitInputState, address: u64) -> Seq<u8> {
    match s.sdb.account(address) {
        Some(a) => a.code_hash@,
        None => zero_word(),
    }
}

/// The code length of an account, zero for one that does not exist.
pub open spec fn code_size_of(s: &CircuitInputState, address: u64) -> nat {
    match s.sdb.account(address) {
        Some(a) => a.code@.len(),
        None => 0,
    }
}

/// The memory an EXTCODESIZE step leaves: grown to hold the destination,
/// with the code length written there.
pub open spec fn extcodesize_memory(s: &CircuitInputState, t: TraceStep) -> Seq<u8> {
    written(
        extended(s.memory@, t.nth_last_spec(0) + CODESIZE_LEN),
        t.nth_last_spec(0) as int,
        size_bytes(code_size_of(s, t.nth_last_spec(1))),
    )
}

/// Why an EXTCODESIZE step cannot be built, checked in this order: a
/// missing lookahead entry or operand, a destination past the memory limit,
/// then a lookahead memory other than the memory this step leaves.
pub open spec fn extcodesize_error(s: &CircuitInputState, steps: Seq<TraceStep>) -> Option<Error> {
    if steps.len() < 2 || steps[0].stack@.len() < 2 {
        Some(Error::MalformedTrace)
    } else if steps[0].stack@.len() > STACK_CAPACITY {
        Some(Error::OutOfRangeAccess)
    } else if steps[0].nth_last_spec(0) + CODESIZE_LEN > MEMORY_LIMIT {
        Some(Error::OutOfRangeAccess)
    } else if steps[1].memory@ != extcodesize_memory(s, steps[0]) {
        Some(Error::MalformedTrace)
    } else {
        None
    }
}

/// The operations of an EXTCODESIZE step, in order: the account operand
/// read, three call-context reads, the account's access-list write, the
/// code-hash read, the destination operand read and the four writes of the
/// code length.
pub open spec fn extcodesize_ops(s: &CircuitInputState, t: TraceStep) -> Seq<(RW, OpView)> {
    let c = s.call;
    let address = t.nth_last_spec(1);
    let hash = code_hash_of(s, address);
    seq![
        stack_read(c.call_id, t.nth_last_filled_spec(1), address),
        cc_read(c.call_id, CallContextField::TxId, s.tx_id),
        cc_read(c.call_id, CallContextField::RwCounterEndOfReversion, c.rw_counter_end_of_reversion),
        cc_read(c.call_id, CallContextField::IsPersistent, flag(c.is_persistent)),
        (RW::Write, OpView::TxAccessListAccount(TxAccessListAccountOp {
            tx_id: s.tx_id,
            address,
            is_warm: true,
            is_warm_prev: s.sdb.account_is_warm(address),
        })),
        (RW::Read, OpView::Account(AccountOpView {
            address,
            field: AccountField::CodeHash,
            value: hash,
            value_prev: hash,
        })),
        stack_read(c.call_id, t.nth_last_filled_spec(0), t.nth_last_spec(0)),
    ] + memory_writes(c.call_id, t.nth_last_spec(0) as int, size_bytes(code_size_of(s, address)))
}

/// The low four bytes of a length, most significant first.
pub fn encode_size(n: usize) -> (r: Vec<u8>)
    ensures
        r@ == size_bytes(n as nat),
{
    let v = n as u64;
    let mut r: Vec<u8> = Vec::new();
    r.push(((v / 0x100_0000) % 0x100) as u8);
    r.push(((v / 0x1_0000) % 0x100) as u8);
    r.push(((v / 0x100) % 0x100) as u8);
    r.push((v % 0x100) as u8);
    assert(r@ =~= size_bytes(n as nat));
    r
}

/// What a built EXTCODESIZE step guarantees, for success and for each error.
pub open spec fn extcodesize_post(
    s: &CircuitInputState,
    f: &CircuitInputState,
    steps: Seq<TraceStep>,
    r: Result<ExecStep, Error>,
) -> bool {
    &&& r is Err <==> extcodesize_error(s, steps) is Some
    &&& r is Err ==> r->Err_0 == extcodesize_error(s, steps)->0 && *f == *s
    &&& r is Ok ==> {
        let t = steps[0];
        let dest = t.nth_last_spec(0);
        let step = r->Ok_0;
        &&& f.wf()
        &&& f.container.ops() == s.container.ops() + stamped(
            s.container.ops@.len(),
            extcodesize_ops(s, t),
        )
        &&& refs_since(&f.container, step.bus_mapping_instance@, s.container.ops@.len())
        &&& step.bus_mapping_instance@.len() == EXTCODESIZE_OPS
        &&& step.rwc == s.container.ops@.len() + 1
        &&& f.memory@ == extcodesize_memory(s, t)
        &&& f.memory@ == steps[1].memory@
        &&& forall|a: u64| #[trigger] f.sdb.account_is_warm(a) == (a == t.nth_last_spec(1)
            || s.sdb.account_is_warm(a))
        &&& f.sdb.warm_slots == s.sdb.warm_slots
        &&& f.sdb.storage == s.sdb.storage
        &&& f.sdb.refund == s.sdb.refund
        &&& step.reversible_write_counter_delta == 1
        &&& f.call == (Call {
            reversible_write_counter: (s.call.reversible_write_counter + 1) as u64,
            ..s.call
        })
        &&& f.journal_view() == s.journal_view().push(undo_spec(extcodesize_ops(s, t)[4].1))
        &&& f.copy_events == s.copy_events
        &&& frame_kept(s, f)
        &&& step_header(s, t, &step)
    }
}

/// Handler of EXTCODESIZE.
pub struct Extcodesize;

impl Extcodesize {
    /// Builds the step of an EXTCODESIZE from the trace window `steps`.
    pub fn gen_associated_ops(state: &mut CircuitInputState, steps: &[TraceStep]) -> (r: Result<ExecStep, Error>)
        requires
            old(state).wf(),
            old(state).container.ops@.len() + EXTCODESIZE_OPS <= MAX_OPERATIONS,
        ensures
            extcodesize_post(old(state), final(state), steps@, r),
    {
        if steps.len() < 2 || steps[0].stack.len() < 2 {
            return Err(Error::MalformedTrace);
        }
        let t = &steps[0];
        if t.stack.len() as u64 > STACK_CAPACITY {
            return Err(Error::OutOfRangeAccess);
        }
        let dest = t.nth_last(0);
        if dest > MEMORY_LIMIT - CODESIZE_LEN {
            return Err(Error::OutOfRangeAccess);
        }
        let address = t.nth_last(1);
        let is_warm = state.sdb.check_account_in_access_list(address);
        let (code_hash, code_size) = state.sdb.get_code_info(address);
        let size = encode_size(code_size);
        if !matches_after_write(&state.memory, 0, dest + CODESIZE_LEN, dest, &size, &steps[1].memory) {
            return Err(Error::MalformedTrace);
        }

        let ghost s = *old(state);
        let ghost base = state.container.ops();
        let mut step = state.new_step(t);
        let mut refs: Vec<OpRef> = Vec::new();
        let mut d: Ghost<Seq<(RW, OpView)>> = Ghost(Seq::empty());
        assert(base + stamped(base.len(), d@) =~= base);
        let call_id = state.call.call_id;
        let tx_id = state.tx_id;
        d = record(&mut state.container, &mut refs, RW::Read, Op::Stack(StackOp {
            call_id, address: t.nth_last_filled(1), value: address }), Ghost(base), d);
        d = record(&mut state.container, &mut refs, RW::Read, Op::CallContext(CallContextOp {
            call_id, field: CallContextField::TxId, value: tx_id }), Ghost(base), d);
        d = record(&mut state.container, &mut refs, RW::Read, Op::CallContext(CallContextOp {
            call_id, field: CallContextField::RwCounterEndOfReversion,
            value: state.call.rw_counter_end_of_reversion }), Ghost(base), d);
        d = record(&mut state.container, &mut refs, RW::Read, Op::CallContext(CallContextOp {
            call_id, field: CallContextField::IsPersistent, value: flag_value(state.call.is_persistent) }),
            Ghost(base), d);
        d = state.push_op_reversible(&mut refs, Op::TxAccessListAccount(
            TxAccessListAccountOp { tx_id, address, is_warm: true, is_warm_prev: is_warm }), Ghost(base), d);
        state.sdb.add_account_to_access_list(address);
        d = record(&mut state.container, &mut refs, RW::Read, Op::Account(AccountOp {
            address, field: AccountField::CodeHash, value: copy_bytes(&code_hash), value_prev: code_hash }),
            Ghost(base), d);
        d = record(&mut state.container, &mut refs, RW::Read, Op::Stack(StackOp {
            call_id, address: t.nth_last_filled(0), value: dest }), Ghost(base), d);
        extend_memory(&mut state.memory, dest + CODESIZE_LEN);
        d = record_memory_writes(&mut state.container, &mut refs, &mut state.memory, call_id, dest,
            &size, Ghost(base), d);
        assert(d@ =~= extcodesize_ops(&s, steps@[0]));
        step.bus_mapping_instance = refs;
        step.reversible_write_counter_delta = 1;
        Ok(step)
    }
}

} // verus!
