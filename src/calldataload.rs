//! CALLDATALOAD: copy a 32-byte window of the call data into memory.
use vstd::prelude::*;
use crate::builder::{
    frame_kept, record, refs_since, stamped, step_header, CircuitInputState, Error, ExecStep, TraceStep, MAX_OPERATIONS,
    MEMORY_LIMIT, STACK_CAPACITY,
};
use crate::opcodes::{
    cc_read, extend_memory, matches_after_write, extended, memory_reads, memory_writes, read_memory,
    record_memory_reads, record_memory_writes, stack_read, written,
};
use crate::operation::{CallContextField, CallContextOp, Op, OpRef, OpView, RW, StackOp};

verus! {

/// The number of bytes CALLDATALOAD copies.
pub const CALLDATA_CHUNK_LEN: u64 = 32;

/// The most operations of a CALLDATALOAD step.
pub const CALLDATALOAD_MAX_OPS: u64 = 69;

/// The 32 bytes of call data from `offset` on, zero past its end.
pub open spec fn calldata_word(data: Seq<u8>, offset: u64) -> Seq<u8> {
    Seq::new(32, |i: int| if offset + i < data.len() { data[offset + i] } else { 0u8 })
}

/// The bytes of that window that lie within the call data.
pub open spec fn calldata_in_range(data: Seq<u8>, offset: u64) -> Seq<u8> {
    if offset >= data.len() {
        Seq::empty()
    } else if offset + 32 <= data.len() {
        data.subrange(offset as int, offset + 32)
    } else {
        data.subrange(offset as int, data.len() as int)
    }
}

/// Why a CALLDATALOAD step cannot be built, checked in this order: a
/// missing lookahead entry or operand, a destination past the memory limit,
/// then a lookahead memory other than the memory this step leaves.
pub open spec fn calldataload_error(s: &CircuitInputState, steps: Seq<TraceStep>) -> Option<Error> {
    if steps.len() < 2 || steps[0].stack@.len() < 2 {
        Some(Error::MalformedTrace)
    } else if steps[0].stack@.len() > STACK_CAPACITY {
        Some(Error::OutOfRangeAccess)
    } else if steps[0].nth_last_spec(0) + CALLDATA_CHUNK_LEN > MEMORY_LIMIT {
        Some(Error::OutOfRangeAccess)
    } else if steps[1].memory@ != calldataload_memory(s, steps[0]) {
        Some(Error::MalformedTrace)
    } else {
        None
    }
}

/// The memory a CALLDATALOAD step leaves: grown to hold the destination,
/// with the window written there.
pub open spec fn calldataload_memory(s: &CircuitInputState, t: TraceStep) -> Seq<u8> {
    written(
        extended(s.memory@, t.nth_last_spec(0) + CALLDATA_CHUNK_LEN),
        t.nth_last_spec(0) as int,
        calldata_word(s.call_data@, t.nth_last_spec(1)),
    )
}

/// The operations of a CALLDATALOAD step, in order: the offset operand
/// read; in a root call the transaction id and call data length, in an
/// internal call the caller id, call data length and call data offset
/// followed by the caller-memory reads of the bytes within the call data;
/// the destination operand read; and the 32 memory writes of the window.
pub open spec fn calldataload_ops(s: &CircuitInputState, t: TraceStep) -> Seq<(RW, OpView)> {
    let c = s.call;
    let offset = t.nth_last_spec(1);
    let head = seq![stack_read(c.call_id, t.nth_last_filled_spec(1), offset)];
    let context = if c.is_root {
        seq![
            cc_read(c.call_id, CallContextField::TxId, s.tx_id),
            cc_read(c.call_id, CallContextField::CallDataLength, c.call_data_length),
        ]
    } else {
        seq![
            cc_read(c.call_id, CallContextField::CallerId, c.caller_id),
            cc_read(c.call_id, CallContextField::CallDataLength, c.call_data_length),
            cc_read(c.call_id, CallContextField::CallDataOffset, c.call_data_offset),
        ] + memory_reads(
            c.caller_id,
            c.call_data_offset + offset,
            calldata_in_range(s.call_data@, offset),
        )
    };
    head + context + seq![stack_read(c.call_id, t.nth_last_filled_spec(0), t.nth_last_spec(0))]
        + memory_writes(c.call_id, t.nth_last_spec(0) as int, calldata_word(s.call_data@, offset))
}

/// The 32-byte window of call data from `offset` on, zero past its end.
pub fn load_calldata_word(data: &Vec<u8>, offset: u64) -> (r: Vec<u8>)
    ensures
        r@ == calldata_word(data@, offset),
{
    let mut r: Vec<u8> = Vec::new();
    let nu = data.len();
    let n = nu as u64;
    let mut i: u64 = 0;
    while i < CALLDATA_CHUNK_LEN
        invariant
            i <= CALLDATA_CHUNK_LEN,
            nu == data@.len(),
            n == nu,
            r@ == calldata_word(data@, offset).subrange(0, i as int),
        decreases CALLDATA_CHUNK_LEN - i,
    {
        if offset < n && i < n - offset {
            let j = (offset + i) as usize;
            assert(j == offset + i);
            r.push(data[j]);
        } else {
            r.push(0u8);
        }
        i = i + 1;
        assert(r@ =~= calldata_word(data@, offset).subrange(0, i as int));
    }
    r
}

/// What a built CALLDATALOAD step guarantees, for success and for each error.
pub open spec fn calldataload_post(
    s: &CircuitInputState,
    f: &CircuitInputState,
    steps: Seq<TraceStep>,
    r: Result<ExecStep, Error>,
) -> bool {
    &&& r is Err <==> calldataload_error(s, steps) is Some
    &&& r is Err ==> r->Err_0 == calldataload_error(s, steps)->0 && *f == *s
    &&& r is Ok ==> {
        let t = steps[0];
        let dest = t.nth_last_spec(0);
        let step = r->Ok_0;
        &&& f.wf()
        &&& f.container.ops() == s.container.ops() + stamped(
            s.container.ops@.len(),
            calldataload_ops(s, t),
        )
        &&& refs_since(&f.container, step.bus_mapping_instance@, s.container.ops@.len())
        &&& step.bus_mapping_instance@.len() == if s.call.is_root {
            CALLDATA_CHUNK_LEN + 4
        } else {
            CALLDATA_CHUNK_LEN + 5 + calldata_in_range(s.call_data@, t.nth_last_spec(1)).len()
        }
        &&& step.rwc == s.container.ops@.len() + 1
        &&& step.reversible_write_counter_delta == 0
        &&& f.memory@ == calldataload_memory(s, t)
        &&& f.memory@ == steps[1].memory@
        &&& f.sdb == s.sdb
        &&& f.call == s.call
        &&& f.journal == s.journal
        &&& f.copy_events == s.copy_events
        &&& frame_kept(s, f)
        &&& step_header(s, t, &step)
    }
}

/// Handler of CALLDATALOAD.
pub struct Calldataload;

impl Calldataload {
    /// Builds the step of a CALLDATALOAD from the trace window `steps`.
    pub fn gen_associated_ops(state: &mut CircuitInputState, steps: &[TraceStep]) -> (r: Result<ExecStep, Error>)
        requires
            old(state).wf(),
            old(state).container.ops@.len() + CALLDATALOAD_MAX_OPS <= MAX_OPERATIONS,
        ensures
            calldataload_post(old(state), final(state), steps@, r),
    {
        if steps.len() < 2 || steps[0].stack.len() < 2 {
            return Err(Error::MalformedTrace);
        }
        let t = &steps[0];
        if t.stack.len() as u64 > STACK_CAPACITY {
            return Err(Error::OutOfRangeAccess);
        }
        let dest = t.nth_last(0);
        if dest > MEMORY_LIMIT - CALLDATA_CHUNK_LEN {
            return Err(Error::OutOfRangeAccess);
        }
        let offset = t.nth_last(1);
        let word = load_calldata_word(&state.call_data, offset);
        if !matches_after_write(&state.memory, 0, dest + CALLDATA_CHUNK_LEN, dest, &word, &steps[1].memory) {
            return Err(Error::MalformedTrace);
        }

        let ghost s = *old(state);
        let ghost base = state.container.ops();
        let mut step = state.new_step(t);
        let mut refs: Vec<OpRef> = Vec::new();
        let mut d: Ghost<Seq<(RW, OpView)>> = Ghost(Seq::empty());
        assert(base + stamped(base.len(), d@) =~= base);
        let call_id = state.call.call_id;
        d = record(&mut state.container, &mut refs, RW::Read, Op::Stack(StackOp {
            call_id, address: t.nth_last_filled(1), value: offset }), Ghost(base), d);
        if state.call.is_root {
            d = record(&mut state.container, &mut refs, RW::Read, Op::CallContext(CallContextOp {
                call_id, field: CallContextField::TxId, value: state.tx_id }), Ghost(base), d);
            d = record(&mut state.container, &mut refs, RW::Read, Op::CallContext(CallContextOp {
                call_id, field: CallContextField::CallDataLength, value: state.call.call_data_length }),
                Ghost(base), d);
        } else {
            d = record(&mut state.container, &mut refs, RW::Read, Op::CallContext(CallContextOp {
                call_id, field: CallContextField::CallerId, value: state.call.caller_id }), Ghost(base), d);
            d = record(&mut state.container, &mut refs, RW::Read, Op::CallContext(CallContextOp {
                call_id, field: CallContextField::CallDataLength, value: state.call.call_data_length }),
                Ghost(base), d);
            d = record(&mut state.container, &mut refs, RW::Read, Op::CallContext(CallContextOp {
                call_id, field: CallContextField::CallDataOffset, value: state.call.call_data_offset }),
                Ghost(base), d);
            let n = state.call_data.len() as u64;
            if offset < n {
                let k = if n - offset < CALLDATA_CHUNK_LEN { n - offset } else { CALLDATA_CHUNK_LEN };
                let bytes = read_memory(&state.call_data, offset, k);
                assert(bytes@ == calldata_in_range(state.call_data@, offset));
                d = record_memory_reads(&mut state.container, &mut refs, state.call.caller_id,
                    state.call.call_data_offset + offset, &bytes, Ghost(base), d);
            } else {
                assert(calldata_in_range(state.call_data@, offset) =~= Seq::<u8>::empty());
                assert(d@ + memory_reads(state.call.caller_id, state.call.call_data_offset + offset,
                    Seq::<u8>::empty()) =~= d@);
            }
        }
        d = record(&mut state.container, &mut refs, RW::Read, Op::Stack(StackOp {
            call_id, address: t.nth_last_filled(0), value: dest }), Ghost(base), d);
        extend_memory(&mut state.memory, dest + CALLDATA_CHUNK_LEN);
        d = record_memory_writes(&mut state.container, &mut refs, &mut state.memory, call_id, dest,
            &word, Ghost(base), d);
        assert(d@ =~= calldataload_ops(&s, steps@[0]));
        step.bus_mapping_instance = refs;
        Ok(step)
    }
}

} // verus!
