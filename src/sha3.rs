//! SHA3: hash a memory window with Keccak-256 and write the digest to
//! memory, recording the window as a copy event.
use vstd::prelude::*;
use crate::builder::{
    frame_kept, record, refs_since, stamped, step_header, CircuitInputState, CopyDataType, CopyEvent, Error, ExecStep,
    TraceStep, MAX_OPERATIONS, MEMORY_LIMIT, STACK_CAPACITY,
};
use crate::opcodes::{
    extend_memory, extended, matches_after_write, memory_reads, memory_writes, record_memory_reads,
    record_memory_writes, stack_read, written,
};
use crate::operation::{Op, OpRef, OpView, RW, StackOp};

verus! {

/// The Keccak-256 digest of a byte string.
pub uninterp spec fn keccak256_of(b: Seq<u8>) -> Seq<u8>;

/// Relies on `ethers_core::utils::keccak256`: the 32-byte Keccak-256 digest
/// of its input, which depends on the input bytes alone.
#[verifier::external_body]
fn keccak256(b: &Vec<u8>) -> (r: Vec<u8>)
    ensures
        r@ == keccak256_of(b@),
        r@.len() == 32,
{
    ethers_core::utils::keccak256(b).to_vec()
}

/// The number of bytes of a digest.
pub const DIGEST_LEN: u64 = 32;

/// The most operations of a SHA3 step: three operand reads, a memory read
/// per hashed byte and the digest's writes.
pub const SHA3_MAX_OPS: u64 = MEMORY_LIMIT + 35;

/// Memory as the step finds it once grown to hold the window and the
/// digest.
pub open spec fn sha3_memory(s: &CircuitInputState, t: TraceStep) -> Seq<u8> {
    let dest = t.nth_last_spec(0);
    let size = t.nth_last_spec(1);
    let offset = t.nth_last_spec(2);
    let m = if size > 0 {
        extended(s.memory@, offset + size)
    } else {
        s.memory@
    };
    extended(m, dest + DIGEST_LEN)
}

/// The bytes an SHA3 step hashes: `size` bytes of memory from `offset` on,
/// zero where memory had not grown that far.
pub open spec fn sha3_input(s: &CircuitInputState, t: TraceStep) -> Seq<u8> {
    let size = t.nth_last_spec(1);
    let offset = t.nth_last_spec(2);
    if size == 0 {
        Seq::empty()
    } else {
        extended(s.memory@, offset + size).subrange(offset as int, offset + size)
    }
}

/// Why a SHA3 step cannot be built, checked in this order: a missing
/// lookahead entry or operand, then a window or a destination past the
/// memory limit.
pub open spec fn sha3_error(steps: Seq<TraceStep>) -> Option<Error> {
    if steps.len() < 2 || steps[0].stack@.len() < 3 {
        Some(Error::MalformedTrace)
    } else if steps[0].stack@.len() > STACK_CAPACITY {
        Some(Error::OutOfRangeAccess)
    } else if steps[0].nth_last_spec(1) > 0 && steps[0].nth_last_spec(2) + steps[0].nth_last_spec(1)
        > MEMORY_LIMIT {
        Some(Error::OutOfRangeAccess)
    } else if steps[0].nth_last_spec(0) + DIGEST_LEN > MEMORY_LIMIT {
        Some(Error::OutOfRangeAccess)
    } else {
        None
    }
}

/// The operations of a SHA3 step with a given digest, in order: the
/// destination, size and offset operand reads, a read per hashed byte, and
/// the digest's writes.
pub open spec fn sha3_ops(s: &CircuitInputState, t: TraceStep, digest: Seq<u8>) -> Seq<(RW, OpView)> {
    let c = s.call;
    seq![
        stack_read(c.call_id, t.nth_last_filled_spec(0), t.nth_last_spec(0)),
        stack_read(c.call_id, t.nth_last_filled_spec(1), t.nth_last_spec(1)),
        stack_read(c.call_id, t.nth_last_filled_spec(2), t.nth_last_spec(2)),
    ] + memory_reads(c.call_id, t.nth_last_spec(2) as int, sha3_input(s, t)) + memory_writes(
        c.call_id,
        t.nth_last_spec(0) as int,
        digest,
    )
}

/// What holds after a SHA3 step built with a given digest.
pub open spec fn sha3_done(
    s: &CircuitInputState,
    f: &CircuitInputState,
    t: TraceStep,
    digest: Seq<u8>,
    step: &ExecStep,
) -> bool {
    let input = sha3_input(s, t);
    let start = s.container.ops@.len();
    &&& f.wf()
    &&& f.container.ops() == s.container.ops() + stamped(start, sha3_ops(s, t, digest))
    &&& refs_since(&f.container, step.bus_mapping_instance@, start)
    &&& step.bus_mapping_instance@.len() == 3 + input.len() + DIGEST_LEN
    &&& step.rwc == start + 1
    &&& step.copy_rw_counter_delta == input.len()
    &&& step.reversible_write_counter_delta == 0
    &&& f.memory@ == written(sha3_memory(s, t), t.nth_last_spec(0) as int, digest)
    &&& f.copy_events@.len() == s.copy_events@.len() + 1
    &&& f.copy_events@.drop_last() == s.copy_events@
    &&& {
        let e = f.copy_events@.last();
        &&& e.src_type == CopyDataType::Memory
        &&& e.src_id == s.call.call_id
        &&& e.src_addr == t.nth_last_spec(2)
        &&& e.src_addr_end == t.nth_last_spec(2) + input.len()
        &&& e.dst_type == CopyDataType::RlcAcc
        &&& e.dst_id == s.call.call_id
        &&& e.dst_addr == 0
        &&& e.rw_counter_start == start + 4
        &&& e.bytes@ == Seq::new(input.len(), |i: int| (input[i], false))
    }
    &&& f.sdb == s.sdb
    &&& f.call == s.call
    &&& f.journal == s.journal
    &&& frame_kept(s, f)
    &&& step_header(s, t, step)
}

/// Why a SHA3 step with a given digest cannot be built: the checks of
/// [`sha3_error`], then a lookahead memory other than the memory this step
/// leaves.
pub open spec fn sha3_step_error(s: &CircuitInputState, steps: Seq<TraceStep>, digest: Seq<u8>) -> Option<Error> {
    if sha3_error(steps) is Some {
        sha3_error(steps)
    } else if steps[1].memory@ != written(sha3_memory(s, steps[0]), steps[0].nth_last_spec(0) as int, digest) {
        Some(Error::MalformedTrace)
    } else {
        None
    }
}

/// What a SHA3 step built with a given digest guarantees, for success and
/// for each error.
pub open spec fn sha3_post_with(
    s: &CircuitInputState,
    f: &CircuitInputState,
    steps: Seq<TraceStep>,
    digest: Seq<u8>,
    r: Result<ExecStep, Error>,
) -> bool {
    &&& r is Err <==> sha3_step_error(s, steps, digest) is Some
    &&& r is Err ==> r->Err_0 == sha3_step_error(s, steps, digest)->0 && *f == *s
    &&& r is Ok ==> sha3_done(s, f, steps[0], digest, &r->Ok_0) && f.memory@ == steps[1].memory@
}

/// What a built SHA3 step guarantees, for success and for each error.
pub open spec fn sha3_post(
    s: &CircuitInputState,
    f: &CircuitInputState,
    steps: Seq<TraceStep>,
    r: Result<ExecStep, Error>,
) -> bool {
    &&& sha3_post_with(s, f, steps, keccak256_of(sha3_input(s, steps[0])), r)
    &&& r is Ok ==> keccak256_of(sha3_input(s, steps[0])).len() == DIGEST_LEN
}

/// Pairs each byte with the flag that it is not code.
fn copy_bytes_of(input: &Vec<u8>) -> (r: Vec<(u8, bool)>)
    ensures
        r@ == Seq::new(input@.len(), |i: int| (input@[i], false)),
{
    let mut r: Vec<(u8, bool)> = Vec::new();
    let mut i: usize = 0;
    while i < input.len()
        invariant
            i <= input@.len(),
            r@ == Seq::new(i as nat, |j: int| (input@[j], false)),
        decreases input@.len() - i,
    {
        r.push((input[i], false));
        i = i + 1;
        assert(r@ =~= Seq::new(i as nat, |j: int| (input@[j], false)));
    }
    r
}

/// Handler of SHA3.
pub struct Sha3;

impl Sha3 {
    /// The bytes a SHA3 step hashes, after the checks of the step.
    pub fn read_input(state: &CircuitInputState, steps: &[TraceStep]) -> (r: Result<Vec<u8>, Error>)
        requires
            state.wf(),
        ensures
            r is Err <==> sha3_error(steps@) is Some,
            r is Err ==> r->Err_0 == sha3_error(steps@)->0,
            r is Ok ==> r->Ok_0@ == sha3_input(state, steps@[0]),
    {
        if steps.len() < 2 || steps[0].stack.len() < 3 {
            return Err(Error::MalformedTrace);
        }
        let t = &steps[0];
        if t.stack.len() as u64 > STACK_CAPACITY {
            return Err(Error::OutOfRangeAccess);
        }
        let dest = t.nth_last(0);
        let size = t.nth_last(1);
        let offset = t.nth_last(2);
        if size > 0 && (size > MEMORY_LIMIT || offset > MEMORY_LIMIT - size) {
            return Err(Error::OutOfRangeAccess);
        }
        if dest > MEMORY_LIMIT - DIGEST_LEN {
            return Err(Error::OutOfRangeAccess);
        }
        if size == 0 {
            return Ok(Vec::new());
        }
        let n = state.memory.len() as u64;
        let mut input: Vec<u8> = Vec::new();
        let mut i: u64 = 0;
        let ghost m = extended(state.memory@, offset + size);
        while i < size
            invariant
                i <= size,
                offset + size <= MEMORY_LIMIT,
                n == state.memory@.len(),
                m == extended(state.memory@, offset + size),
                input@ == m.subrange(offset as int, offset + i),
            decreases size - i,
        {
            let a = offset + i;
            if a < n {
                input.push(state.memory[a as usize]);
            } else {
                input.push(0u8);
            }
            i = i + 1;
            assert(input@ =~= m.subrange(offset as int, offset + i));
        }
        Ok(input)
    }

    /// Builds the step of a SHA3 whose digest is given: the memory is grown
    /// to hold the window and the destination, the window is read byte by
    /// byte, the digest is written at the destination and the window is
    /// recorded as a copy event.
    pub fn gen_associated_ops_with_digest(
        state: &mut CircuitInputState,
        steps: &[TraceStep],
        digest: &Vec<u8>,
    ) -> (r: Result<ExecStep, Error>)
        requires
            old(state).wf(),
            old(state).container.ops@.len() + SHA3_MAX_OPS <= MAX_OPERATIONS,
            digest@.len() == DIGEST_LEN,
        ensures
            sha3_post_with(old(state), final(state), steps@, digest@, r),
    {
        let input = match Sha3::read_input(state, steps) {
            Ok(v) => v,
            Err(e) => {
                return Err(e);
            },
        };
        let t = &steps[0];
        let dest = t.nth_last(0);
        let size = t.nth_last(1);
        let offset = t.nth_last(2);
        let grown = if size > 0 { offset + size } else { 0 };
        if !matches_after_write(&state.memory, grown, dest + DIGEST_LEN, dest, digest, &steps[1].memory) {
            return Err(Error::MalformedTrace);
        }

        let ghost s = *old(state);
        let ghost base = state.container.ops();
        let mut step = state.new_step(t);
        let mut refs: Vec<OpRef> = Vec::new();
        let mut d: Ghost<Seq<(RW, OpView)>> = Ghost(Seq::empty());
        assert(base + stamped(base.len(), d@) =~= base);
        let call_id = state.call.call_id;
        d = record(&mut state.container, &mut refs, RW::Read, Op::Stack(StackOp {
            call_id, address: t.nth_last_filled(0), value: dest }), Ghost(base), d);
        d = record(&mut state.container, &mut refs, RW::Read, Op::Stack(StackOp {
            call_id, address: t.nth_last_filled(1), value: size }), Ghost(base), d);
        d = record(&mut state.container, &mut refs, RW::Read, Op::Stack(StackOp {
            call_id, address: t.nth_last_filled(2), value: offset }), Ghost(base), d);
        if size > 0 {
            extend_memory(&mut state.memory, offset + size);
        }
        extend_memory(&mut state.memory, dest + DIGEST_LEN);
        let rw_counter_start = state.rw_counter();
        d = record_memory_reads(&mut state.container, &mut refs, call_id, offset, &input, Ghost(base), d);
        d = record_memory_writes(&mut state.container, &mut refs, &mut state.memory, call_id, dest,
            digest, Ghost(base), d);
        assert(d@ =~= sha3_ops(&s, steps@[0], digest@));
        let event = CopyEvent {
            src_type: CopyDataType::Memory,
            src_id: call_id,
            src_addr: offset,
            src_addr_end: offset + input.len() as u64,
            dst_type: CopyDataType::RlcAcc,
            dst_id: call_id,
            dst_addr: 0,
            rw_counter_start,
            bytes: copy_bytes_of(&input),
        };
        state.copy_events.push(event);
        assert(state.copy_events@.drop_last() =~= s.copy_events@);
        step.bus_mapping_instance = refs;
        step.copy_rw_counter_delta = input.len() as u64;
        Ok(step)
    }

    /// Builds the step of a SHA3 from the trace window `steps`: the window
    /// is hashed with Keccak-256 and the digest written to memory.
    pub fn gen_associated_ops(state: &mut CircuitInputState, steps: &[TraceStep]) -> (r: Result<ExecStep, Error>)
        requires
            old(state).wf(),
            old(state).container.ops@.len() + SHA3_MAX_OPS <= MAX_OPERATIONS,
        ensures
            sha3_post(old(state), final(state), steps@, r),
    {
        let input = match Sha3::read_input(state, steps) {
            Ok(v) => v,
            Err(e) => {
                return Err(e);
            },
        };
        let digest = keccak256(&input);
        Sha3::gen_associated_ops_with_digest(state, steps, &digest)
    }
}

} // verus!
