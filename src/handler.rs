//! The single dispatch from a trace entry's opcode to its handler.
use vstd::prelude::*;
use crate::builder::{step_header, CircuitInputState, Error, ExecStep, TraceStep, MAX_OPERATIONS};
use crate::execution::ExecState;
use crate::calldataload::{calldataload_post, Calldataload};
use crate::execution::OpcodeId;
use crate::extcodesize::{extcodesize_post, Extcodesize};
use crate::sha3::{sha3_post, Sha3, SHA3_MAX_OPS};
use crate::sstore::{sstore_post, Sstore};
use vstd::slice::slice_subrange;

verus! {

/// The most operations one step creates.
pub const MAX_STEP_OPS: u64 = SHA3_MAX_OPS;

/// What every built step guarantees, whatever its opcode: the builder stays
/// well formed, earlier operations stay as they were, and the step's
/// operations are the ones created while building it, starting at the
/// step's counter.
pub open spec fn step_built(s: &CircuitInputState, f: &CircuitInputState, step: &ExecStep) -> bool {
    let start = s.container.ops@.len();
    &&& f.wf()
    &&& f.container.ops@.len() <= start + MAX_STEP_OPS
    &&& f.container.ops().subrange(0, start as int) == s.container.ops()
    &&& step.rwc == start + 1
    &&& start + step.bus_mapping_instance@.len() == f.container.ops@.len()
}

/// What building the step of a trace window guarantees: the handler's own
/// guarantee for the window's first opcode, and for every opcode the
/// general guarantees of a built step or of a failure.
pub open spec fn dispatch_post(
    s: &CircuitInputState,
    f: &CircuitInputState,
    steps: Seq<TraceStep>,
    r: Result<ExecStep, Error>,
) -> bool {
    &&& steps.len() == 0 ==> r == Err::<ExecStep, Error>(Error::MalformedTrace) && *f == *s
    &&& steps.len() > 0 ==> match steps[0].op {
        OpcodeId::SSTORE => sstore_post(s, f, steps, r),
        OpcodeId::CALLDATALOAD => calldataload_post(s, f, steps, r),
        OpcodeId::SHA3 => sha3_post(s, f, steps, r),
        OpcodeId::EXTCODESIZE => extcodesize_post(s, f, steps, r),
        _ => r == Err::<ExecStep, Error>(Error::UnsupportedOpcode) && *f == *s,
    }
    &&& r is Ok ==> step_built(s, f, &r->Ok_0) && step_header(s, steps[0], &r->Ok_0)
    &&& r is Err ==> *f == *s
}

/// The trace window that starts at entry `k`.
pub open spec fn window(trace: Seq<TraceStep>, k: int) -> Seq<TraceStep> {
    trace.subrange(k, trace.len() as int)
}

/// `states[0]`, ..., `states[n]` are the builder before and after each of
/// the first `n` steps of `trace`, and `steps` are those steps: each was
/// built from its window on the state the earlier ones left.
pub open spec fn built_chain(
    states: Seq<CircuitInputState>,
    trace: Seq<TraceStep>,
    steps: Seq<ExecStep>,
    n: int,
) -> bool {
    &&& states.len() == n + 1
    &&& steps.len() == n
    &&& forall|k: int|
        0 <= k < n ==> dispatch_post(&#[trigger] states[k], &states[k + 1], window(trace, k), Ok(steps[k]))
}

/// Builds the step of the first entry of the trace window `steps` with the
/// handler of its opcode.
pub fn gen_associated_ops(state: &mut CircuitInputState, steps: &[TraceStep]) -> (r: Result<ExecStep, Error>)
    requires
        old(state).wf(),
        old(state).container.ops@.len() + SHA3_MAX_OPS <= MAX_OPERATIONS,
    ensures
        dispatch_post(old(state), final(state), steps@, r),
{
    if steps.len() == 0 {
        return Err(Error::MalformedTrace);
    }
    let ghost s = *old(state);
    let r = match steps[0].op {
        OpcodeId::SSTORE => Sstore::gen_associated_ops(state, steps),
        OpcodeId::CALLDATALOAD => Calldataload::gen_associated_ops(state, steps),
        OpcodeId::SHA3 => Sha3::gen_associated_ops(state, steps),
        OpcodeId::EXTCODESIZE => Extcodesize::gen_associated_ops(state, steps),
        _ => Err(Error::UnsupportedOpcode),
    };
    proof {
        if r is Ok {
            let start = s.container.ops@.len() as int;
            assert(state.container.ops().subrange(0, start) =~= s.container.ops());
        }
    }
    r
}

proof fn lemma_room(used: int, n: int)
    requires
        n >= 1,
        used + n * (MAX_STEP_OPS as int) <= MAX_OPERATIONS,
    ensures
        used + MAX_STEP_OPS <= MAX_OPERATIONS,
        n * (MAX_STEP_OPS as int) == (n - 1) * (MAX_STEP_OPS as int) + MAX_STEP_OPS,
{
    assert(n * (MAX_STEP_OPS as int) >= MAX_STEP_OPS as int) by (nonlinear_arith)
        requires
            n >= 1,
    ;
    assert(n * (MAX_STEP_OPS as int) == (n - 1) * (MAX_STEP_OPS as int) + MAX_STEP_OPS) by (nonlinear_arith);
}

/// Builds the steps of a trace in order. The step of each entry has the
/// entry after it as lookahead, so the last entry yields no step of its
/// own. The first step that cannot be built ends the build with its error.
pub fn handle_steps(state: &mut CircuitInputState, trace: &[TraceStep]) -> (r: Result<Vec<ExecStep>, Error>)
    requires
        old(state).wf(),
        old(state).container.ops@.len() + trace@.len() * MAX_STEP_OPS <= MAX_OPERATIONS,
    ensures
        final(state).wf(),
        final(state).container.ops().subrange(0, old(state).container.ops@.len() as int) == old(
            state,
        ).container.ops(),
        r is Ok ==> {
            let steps = r->Ok_0@;
            let n = if trace@.len() == 0 {
                0
            } else {
                trace@.len() - 1
            };
            &&& steps.len() == n
            &&& exists|states: Seq<CircuitInputState>|
                built_chain(states, trace@, steps, n) && states[0] == *old(state)
                    && states[n] == *final(state)
            &&& forall|k: int|
                0 <= k < steps.len() ==> (#[trigger] steps[k]).exec_state == ExecState::Op(trace@[k].op)
                    && steps[k].pc == trace@[k].pc
            &&& steps.len() > 0 ==> steps[0].rwc == old(state).container.ops@.len() + 1
            &&& forall|k: int|
                0 <= k < steps.len() ==> #[trigger] steps[k].rwc + steps[k].bus_mapping_instance@.len()
                    == if k + 1 < steps.len() {
                    steps[k + 1].rwc as int
                } else {
                    final(state).container.ops@.len() + 1 as int
                }
        },
        r is Err ==> exists|states: Seq<CircuitInputState>, steps: Seq<ExecStep>, j: int|
            0 <= j < trace@.len() - 1 && built_chain(states, trace@, steps, j) && states[0] == *old(state)
                && dispatch_post(&states[j], final(state), window(trace@, j), Err(r->Err_0)),
{
    let mut out: Vec<ExecStep> = Vec::new();
    if trace.len() == 0 {
        let ghost states = seq![*old(state)];
        assert(built_chain(states, trace@, out@, 0) && states[0] == *old(state) && states[0] == *state);
        return Ok(out);
    }
    let ghost base = old(state).container.ops();
    let mut i: usize = 0;
    let ghost mut states: Seq<CircuitInputState> = seq![*old(state)];
    assert(state.container.ops().subrange(0, base.len() as int) =~= base);
    assert(built_chain(states, trace@, out@, 0));
    while i < trace.len() - 1
        invariant
            state.wf(),
            trace@.len() > 0,
            i + 1 <= trace@.len(),
            out@.len() == i,
            built_chain(states, trace@, out@, i as int),
            states[0] == *old(state),
            states[i as int] == *state,
            forall|k: int|
                0 <= k < out@.len() ==> (#[trigger] out@[k]).exec_state == ExecState::Op(trace@[k].op)
                    && out@[k].pc == trace@[k].pc,
            base == old(state).container.ops(),
            state.container.ops@.len() + (trace@.len() - i) * MAX_STEP_OPS <= MAX_OPERATIONS,
            state.container.ops@.len() >= base.len(),
            state.container.ops().subrange(0, base.len() as int) == base,
            out@.len() > 0 ==> out@[0].rwc == base.len() + 1,
            out@.len() == 0 ==> state.container.ops@.len() == base.len(),
            forall|k: int|
                0 <= k < out@.len() ==> #[trigger] out@[k].rwc + out@[k].bus_mapping_instance@.len()
                    == if k + 1 < out@.len() {
                    out@[k + 1].rwc as int
                } else {
                    state.container.ops@.len() + 1 as int
                },
        decreases trace@.len() - i,
    {
        let ghost before = *state;
        proof {
            lemma_room(state.container.ops@.len() as int, trace@.len() - i);
        }
        let entries = slice_subrange(trace, i, trace.len());
        assert(entries@ == window(trace@, i as int));
        let step = match gen_associated_ops(state, entries) {
            Ok(step) => step,
            Err(e) => {
                assert(dispatch_post(&states[i as int], state, window(trace@, i as int), Err(e)));
                return Err(e);
            },
        };
        proof {
            let st2 = states.push(*state);
            let out2 = out@.push(step);
            assert forall|k: int| 0 <= k < i + 1 implies dispatch_post(
                &#[trigger] st2[k],
                &st2[k + 1],
                window(trace@, k),
                Ok(out2[k]),
            ) by {
                if k < i {
                    assert(st2[k] == states[k] && st2[k + 1] == states[k + 1] && out2[k] == out@[k]);
                }
            }
            states = st2;
        }
        proof {
            let a = before.container.ops@.len() as int;
            assert(state.container.ops().subrange(0, base.len() as int) =~= state.container.ops().subrange(
                0,
                a,
            ).subrange(0, base.len() as int));
        }
        out.push(step);
        i = i + 1;
    }
    assert(built_chain(states, trace@, out@, i as int));
    Ok(out)
}

} // verus!
