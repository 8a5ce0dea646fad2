//! The builder context: the exclusive handle through which opcode handlers
//! read the trace, consult and change the state, and record operations.
use vstd::prelude::*;
use crate::execution::{ExecError, ExecState};
use crate::execution::OpcodeId;
use crate::operation::{
    AccountOp, Op, OpRef, OpView, OperationContainer, OperationView, RW, StorageOp,
    TxAccessListAccountOp, TxAccessListAccountStorageOp, TxRefundOp,
};
use crate::state::StateDb;
use crate::word::copy_bytes;

verus! {

/// The number of stack slots of a call.
pub const STACK_CAPACITY: u64 = 1024;

/// The largest memory of a call, in bytes.
pub const MEMORY_LIMIT: u64 = 0xFFFF_FFFF;

/// The most operations one build may create; with the memory limit this
/// leaves every step room for its operations within the counter's range.
pub const MAX_OPERATIONS: u64 = 0x4000_0000_0000_0000;

/// Why a step could not be built. Each is fatal for the block being built.
#[derive(Clone, Copy, Debug, PartialEq, Eq, Structural)]
pub enum Error {
    /// The trace lacks what the opcode needs, or contradicts it.
    MalformedTrace,
    /// A stack or memory address lies outside what the call can address.
    OutOfRangeAccess,
    /// The builder's own bookkeeping disagrees with itself.
    InternalInvariantViolation,
    /// The opcode has no handler in this library.
    UnsupportedOpcode,
}

/// A call frame.
#[derive(Clone, Copy, Debug, PartialEq, Eq, Structural)]
pub struct Call {
    pub call_id: u64,
    pub caller_id: u64,
    pub is_root: bool,
    pub is_static: bool,
    pub is_persistent: bool,
    pub rw_counter_end_of_reversion: u64,
    pub reversible_write_counter: u64,
    pub address: u64,
    pub call_data_offset: u64,
    pub call_data_length: u64,
}

/// One entry of the execution trace: the state before an instruction.
/// The stack is listed bottom first.
#[derive(Debug)]
pub struct TraceStep {
    pub pc: u64,
    pub op: OpcodeId,
    pub gas: u64,
    pub gas_cost: u64,
    pub refund: u64,
    pub depth: u64,
    pub stack: Vec<u64>,
    pub memory: Vec<u8>,
}

impl TraceStep {
    /// The `n`-th value from the top of the stack.
    pub open spec fn nth_last_spec(&self, n: int) -> u64 {
        self.stack@[self.stack@.len() - 1 - n]
    }

    /// The stack address of the `n`-th value from the top; the stack grows
    /// down from its capacity.
    pub open spec fn nth_last_filled_spec(&self, n: int) -> u64 {
        (STACK_CAPACITY - self.stack@.len() + n) as u64
    }

    /// The `n`-th value from the top of the stack.
    pub fn nth_last(&self, n: usize) -> (r: u64)
        requires
            n < self.stack@.len(),
        ensures
            r == self.nth_last_spec(n as int),
    {
        self.stack[self.stack.len() - 1 - n]
    }

    /// The stack address of the `n`-th value from the top.
    pub fn nth_last_filled(&self, n: usize) -> (r: u64)
        requires
            n < self.stack@.len() <= STACK_CAPACITY,
        ensures
            r == self.nth_last_filled_spec(n as int),
    {
        STACK_CAPACITY - self.stack.len() as u64 + n as u64
    }
}

/// Where the bytes of a copy come from or go to.
#[derive(Clone, Copy, Debug, PartialEq, Eq, Structural)]
pub enum CopyDataType {
    Memory,
    Bytecode,
    TxCalldata,
    TxLog,
    RlcAcc,
}

/// A bulk copy of a byte range, each byte with whether it is code.
#[derive(Debug)]
pub struct CopyEvent {
    pub src_type: CopyDataType,
    pub src_id: u64,
    pub src_addr: u64,
    pub src_addr_end: u64,
    pub dst_type: CopyDataType,
    pub dst_id: u64,
    pub dst_addr: u64,
    pub rw_counter_start: u64,
    pub bytes: Vec<(u8, bool)>,
}

/// A built step: what it executes and the operations it created.
#[derive(Debug)]
pub struct ExecStep {
    pub exec_state: ExecState,
    pub error: Option<ExecError>,
    pub pc: u64,
    pub stack_size: usize,
    pub memory_size: usize,
    pub gas_left: u64,
    pub gas_cost: u64,
    pub call_index: usize,
    pub rwc: u64,
    pub reversible_write_counter: u64,
    pub reversible_write_counter_delta: u64,
    pub log_id: usize,
    pub copy_rw_counter_delta: u64,
    pub bus_mapping_instance: Vec<OpRef>,
}

/// A suspended call frame with its call data, memory and pending undo
/// operations.
#[derive(Debug)]
pub struct Frame {
    pub call: Call,
    pub call_data: Vec<u8>,
    pub memory: Vec<u8>,
    pub journal: Vec<Op>,
}

impl Frame {
    /// A suspended frame keeps the shape of a current one.
    pub open spec fn wf(&self, n_ops: nat) -> bool {
        &&& self.memory@.len() <= MEMORY_LIMIT
        &&& self.call_data@.len() == self.call.call_data_length
        &&& self.call.call_data_offset + self.call.call_data_length <= MEMORY_LIMIT
        &&& self.journal@.len() == self.call.reversible_write_counter
        &&& self.call.reversible_write_counter <= n_ops
        &&& forall|i: int| 0 <= i < self.journal@.len() ==> is_reversible(#[trigger] self.journal@[i]@)
    }
}

/// Whether a write can be undone when its call reverts. Access-list
/// writes are journaled too, but undoing them never makes an address or a
/// slot cold again.
pub open spec fn is_reversible(op: OpView) -> bool {
    match op {
        OpView::Storage(_) | OpView::TxRefund(_) | OpView::Account(_)
        | OpView::TxAccessListAccount(_) | OpView::TxAccessListAccountStorage(_) => true,
        _ => false,
    }
}

/// The write that undoes a reversible write: same key, the new and the
/// previous value swapped.
pub open spec fn undo_spec(op: OpView) -> OpView {
    match op {
        OpView::Storage(o) => OpView::Storage(
            crate::operation::StorageOpView { value: o.value_prev, value_prev: o.value, ..o },
        ),
        OpView::TxRefund(o) => OpView::TxRefund(TxRefundOp { value: o.value_prev, value_prev: o.value, ..o }),
        OpView::Account(o) => OpView::Account(
            crate::operation::AccountOpView { value: o.value_prev, value_prev: o.value, ..o },
        ),
        OpView::TxAccessListAccount(o) => OpView::TxAccessListAccount(
            TxAccessListAccountOp { is_warm: o.is_warm_prev, is_warm_prev: o.is_warm, ..o },
        ),
        OpView::TxAccessListAccountStorage(o) => OpView::TxAccessListAccountStorage(
            crate::operation::TxAccessListAccountStorageOpView {
                is_warm: o.is_warm_prev,
                is_warm_prev: o.is_warm,
                ..o
            },
        ),
        _ => op,
    }
}

/// The write that undoes a reversible write.
pub fn undo(op: &Op) -> (r: Op)
    requires
        is_reversible(op@),
    ensures
        r@ == undo_spec(op@),
{
    match op {
        Op::Storage(o) => Op::Storage(
            StorageOp {
                address: o.address,
                key: copy_bytes(&o.key),
                value: copy_bytes(&o.value_prev),
                value_prev: copy_bytes(&o.value),
                tx_id: o.tx_id,
                committed_value: copy_bytes(&o.committed_value),
            },
        ),
        Op::TxRefund(o) => Op::TxRefund(
            TxRefundOp { tx_id: o.tx_id, value: o.value_prev, value_prev: o.value },
        ),
        Op::Account(o) => Op::Account(
            AccountOp {
                address: o.address,
                field: o.field,
                value: copy_bytes(&o.value_prev),
                value_prev: copy_bytes(&o.value),
            },
        ),
        Op::TxAccessListAccount(o) => Op::TxAccessListAccount(
            TxAccessListAccountOp {
                tx_id: o.tx_id,
                address: o.address,
                is_warm: o.is_warm_prev,
                is_warm_prev: o.is_warm,
            },
        ),
        Op::TxAccessListAccountStorage(o) => Op::TxAccessListAccountStorage(
            TxAccessListAccountStorageOp {
                tx_id: o.tx_id,
                address: o.address,
                key: copy_bytes(&o.key),
                is_warm: o.is_warm_prev,
                is_warm_prev: o.is_warm,
            },
        ),
        _ => {
            assert(false);
            Op::TxRefund(TxRefundOp { tx_id: 0, value: 0, value_prev: 0 })
        },
    }
}

/// The value of a slot after applying, in order, the storage writes among
/// `ops` to a state.
pub open spec fn replay_storage(s: StateDb, ops: Seq<OpView>, address: u64, key: Seq<u8>) -> Seq<u8>
    decreases ops.len(),
{
    if ops.len() == 0 {
        s.storage_value(address, key)
    } else {
        match ops.last() {
            OpView::Storage(o) => if o.address == address && o.key == key {
                o.value
            } else {
                replay_storage(s, ops.drop_last(), address, key)
            },
            _ => replay_storage(s, ops.drop_last(), address, key),
        }
    }
}

/// The refund counter after applying, in order, the refund writes among
/// `ops`.
pub open spec fn replay_refund(refund: u64, ops: Seq<OpView>) -> u64
    decreases ops.len(),
{
    if ops.len() == 0 {
        refund
    } else {
        match ops.last() {
            OpView::TxRefund(o) => o.value,
            _ => replay_refund(refund, ops.drop_last()),
        }
    }
}

/// Operations as they are created from a given count on: each gets the next
/// counter.
pub open spec fn stamped(start: nat, ops: Seq<(RW, OpView)>) -> Seq<OperationView> {
    Seq::new(ops.len(), |i: int| OperationView { rwc: (start + i + 1) as u64, rw: ops[i].0, op: ops[i].1 })
}

/// The references of a step under construction name, in order, the
/// operations created since `start`.
pub open spec fn refs_since(c: &OperationContainer, refs: Seq<OpRef>, start: nat) -> bool {
    &&& start + refs.len() == c.ops@.len()
    &&& forall|i: int|
        0 <= i < refs.len() ==> c.valid_ref(#[trigger] refs[i]) && c.pos(refs[i]) == start + i
}

/// Creates an operation with the next counter and names it in the step
/// under construction.
pub fn record(
    c: &mut OperationContainer,
    refs: &mut Vec<OpRef>,
    rw: RW,
    op: Op,
    Ghost(base): Ghost<Seq<OperationView>>,
    Ghost(done): Ghost<Seq<(RW, OpView)>>,
) -> (r: Ghost<Seq<(RW, OpView)>>)
    requires
        old(c).wf(),
        old(c).ops@.len() < u64::MAX,
        old(c).ops() == base + stamped(base.len(), done),
        refs_since(old(c), old(refs)@, base.len()),
    ensures
        r@ == done.push((rw, op@)),
        final(c).wf(),
        final(c).ops@.len() == old(c).ops@.len() + 1,
        final(c).ops() == base + stamped(base.len(), r@),
        refs_since(final(c), final(refs)@, base.len()),
{
    let ghost v = op@;
    let ghost oc = *old(c);
    let q = c.insert(rw, op);
    refs.push(q);
    proof {
        let d2 = done.push((rw, v));
        assert(oc.ops().len() == oc.ops@.len());
        assert(stamped(base.len(), d2) =~= stamped(base.len(), done).push(
            OperationView { rwc: (oc.ops@.len() + 1) as u64, rw, op: v },
        ));
        assert(c.ops() =~= base + stamped(base.len(), d2));
        assert forall|i: int| 0 <= i < refs@.len() implies c.valid_ref(#[trigger] refs@[i])
            && c.pos(refs@[i]) == base.len() + i by {
            if i < refs@.len() - 1 {
                assert(oc.valid_ref(old(refs)@[i]));
            }
        }
    }
    Ghost(done.push((rw, v)))
}

/// The header a step takes from its trace entry and from the builder
/// before it.
pub open spec fn step_header(s: &CircuitInputState, t: TraceStep, step: &ExecStep) -> bool {
    &&& step.exec_state == ExecState::Op(t.op)
    &&& step.error is None
    &&& step.pc == t.pc
    &&& step.gas_left == t.gas
    &&& step.gas_cost == t.gas_cost
    &&& step.stack_size == t.stack@.len()
    &&& step.memory_size == s.memory@.len()
    &&& step.call_index == s.call_index
    &&& step.rwc == s.container.ops@.len() + 1
    &&& step.reversible_write_counter == s.call.reversible_write_counter
    &&& step.log_id == 0
}

/// What no opcode step changes: the transaction, the current call's data
/// and index, the suspended frames, the committed storage and the accounts.
pub open spec fn frame_kept(s: &CircuitInputState, f: &CircuitInputState) -> bool {
    &&& f.tx_id == s.tx_id
    &&& f.call_data == s.call_data
    &&& f.call_index == s.call_index
    &&& f.parents == s.parents
    &&& f.sdb.committed == s.sdb.committed
    &&& f.sdb.accounts == s.sdb.accounts
}

/// The builder's exclusive state for one block build.
pub struct CircuitInputState {
    pub container: OperationContainer,
    pub sdb: StateDb,
    pub tx_id: u64,
    pub call_index: usize,
    pub call: Call,
    pub call_data: Vec<u8>,
    pub memory: Vec<u8>,
    pub journal: Vec<Op>,
    pub parents: Vec<Frame>,
    pub copy_events: Vec<CopyEvent>,
}

impl CircuitInputState {
    /// The builder's invariant.
    pub open spec fn wf(&self) -> bool {
        &&& self.container.wf()
        &&& self.container.ops@.len() <= MAX_OPERATIONS
        &&& self.memory@.len() <= MEMORY_LIMIT
        &&& self.call_data@.len() == self.call.call_data_length
        &&& self.call.call_data_offset + self.call.call_data_length <= MEMORY_LIMIT
        &&& self.journal@.len() == self.call.reversible_write_counter
        &&& self.call.reversible_write_counter <= self.container.ops@.len()
        &&& forall|i: int| 0 <= i < self.journal@.len() ==> is_reversible(#[trigger] self.journal@[i]@)
        &&& forall|i: int| 0 <= i < self.parents@.len() ==> (#[trigger] self.parents@[i]).wf(
            self.container.ops@.len(),
        )
    }

    /// The journal as values.
    pub open spec fn journal_view(&self) -> Seq<OpView> {
        Seq::new(self.journal@.len(), |i: int| self.journal@[i]@)
    }

    /// A builder for the root call of a transaction.
    pub fn new(tx_id: u64, call: Call, call_data: Vec<u8>, sdb: StateDb) -> (r: Self)
        requires
            call_data@.len() == call.call_data_length,
            call.call_data_offset + call.call_data_length <= MEMORY_LIMIT,
            call.reversible_write_counter == 0,
        ensures
            r.wf(),
            r.container.ops@.len() == 0,
            r.tx_id == tx_id,
            r.call == call,
            r.call_data == call_data,
            r.memory@.len() == 0,
            r.journal@.len() == 0,
            r.parents@.len() == 0,
            r.sdb == sdb,
            r.copy_events@.len() == 0,
    {
        CircuitInputState {
            container: OperationContainer::new(),
            sdb,
            tx_id,
            call_index: 0,
            call,
            call_data,
            memory: Vec::new(),
            journal: Vec::new(),
            parents: Vec::new(),
            copy_events: Vec::new(),
        }
    }

    /// The counter the next operation gets; counters start at 1.
    pub fn rw_counter(&self) -> (r: u64)
        requires
            self.wf(),
        ensures
            r == self.container.ops@.len() + 1,
    {
        self.container.len() as u64 + 1
    }

    /// A new step for a trace entry, with no operations yet.
    pub fn new_step(&self, t: &TraceStep) -> (r: ExecStep)
        requires
            self.wf(),
        ensures
            r.exec_state == ExecState::Op(t.op),
            r.error is None,
            r.pc == t.pc,
            r.stack_size == t.stack@.len(),
            r.memory_size == self.memory@.len(),
            r.gas_left == t.gas,
            r.gas_cost == t.gas_cost,
            r.call_index == self.call_index,
            r.rwc == self.container.ops@.len() + 1,
            r.reversible_write_counter == self.call.reversible_write_counter,
            r.reversible_write_counter_delta == 0,
            r.copy_rw_counter_delta == 0,
            r.log_id == 0,
            r.bus_mapping_instance@.len() == 0,
    {
        ExecStep {
            exec_state: ExecState::Op(t.op),
            error: None,
            pc: t.pc,
            stack_size: t.stack.len(),
            memory_size: self.memory.len(),
            gas_left: t.gas,
            gas_cost: t.gas_cost,
            call_index: self.call_index,
            rwc: self.rw_counter(),
            reversible_write_counter: self.call.reversible_write_counter,
            reversible_write_counter_delta: 0,
            log_id: 0,
            copy_rw_counter_delta: 0,
            bus_mapping_instance: Vec::new(),
        }
    }

    /// Records a reversible write and journals the write that undoes it;
    /// the current call's reversible write counter grows by one.
    pub fn push_op_reversible(
        &mut self,
        refs: &mut Vec<OpRef>,
        op: Op,
        Ghost(base): Ghost<Seq<OperationView>>,
        Ghost(done): Ghost<Seq<(RW, OpView)>>,
    ) -> (r: Ghost<Seq<(RW, OpView)>>)
        requires
            old(self).wf(),
            old(self).container.ops@.len() < MAX_OPERATIONS,
            is_reversible(op@),
            old(self).container.ops() == base + stamped(base.len(), done),
            refs_since(&old(self).container, old(refs)@, base.len()),
        ensures
            r@ == done.push((RW::Write, op@)),
            final(self).wf(),
            final(self).container.ops@.len() == old(self).container.ops@.len() + 1,
            final(self).container.ops() == base + stamped(base.len(), r@),
            refs_since(&final(self).container, final(refs)@, base.len()),
            final(self).journal_view() == old(self).journal_view().push(undo_spec(op@)),
            final(self).call == (Call {
                reversible_write_counter: (old(self).call.reversible_write_counter + 1) as u64,
                ..old(self).call
            }),
            final(self).sdb == old(self).sdb,
            final(self).memory == old(self).memory,
            final(self).call_data == old(self).call_data,
            final(self).parents == old(self).parents,
            final(self).copy_events == old(self).copy_events,
            final(self).tx_id == old(self).tx_id,
            final(self).call_index == old(self).call_index,
    {
        let u = undo(&op);
        let r = record(&mut self.container, refs, RW::Write, op, Ghost(base), Ghost(done));
        self.journal.push(u);
        self.call.reversible_write_counter = self.call.reversible_write_counter + 1;
        assert(self.journal_view() =~= old(self).journal_view().push(u@));
        r
    }

    /// Opens a nested call: the current frame is suspended and the new one
    /// starts with empty memory and no pending undo operations.
    pub fn begin_call(&mut self, call: Call, call_data: Vec<u8>, call_index: usize)
        requires
            old(self).wf(),
            !old(self).call.is_persistent ==> !call.is_persistent,
            call_data@.len() == call.call_data_length,
            call.call_data_offset + call.call_data_length <= MEMORY_LIMIT,
            call.reversible_write_counter == 0,
        ensures
            final(self).wf(),
            final(self).call == call,
            final(self).call_data == call_data,
            final(self).call_index == call_index,
            final(self).memory@.len() == 0,
            final(self).journal@.len() == 0,
            final(self).parents@.len() == old(self).parents@.len() + 1,
            final(self).parents@.last().call == old(self).call,
            final(self).container == old(self).container,
            final(self).sdb == old(self).sdb,
            final(self).tx_id == old(self).tx_id,
    {
        let mut data = call_data;
        let mut memory: Vec<u8> = Vec::new();
        let mut journal: Vec<Op> = Vec::new();
        std::mem::swap(&mut self.call_data, &mut data);
        std::mem::swap(&mut self.memory, &mut memory);
        std::mem::swap(&mut self.journal, &mut journal);
        let frame = Frame { call: self.call, call_data: data, memory, journal };
        self.parents.push(frame);
        self.call = call;
        self.call_index = call_index;
    }

    /// Closes the current call. If the call does not persist, the undo
    /// operations of its reversible writes are created first, the latest
    /// write's undo first, each with a fresh counter starting at the call's
    /// `rw_counter_end_of_reversion`; a counter that differs from it is an
    /// internal error. Then the suspended caller, if any, is resumed.
    /// Returns the references of the undo operations.
    pub fn end_call(&mut self) -> (r: Result<Vec<OpRef>, Error>)
        requires
            old(self).wf(),
            old(self).container.ops@.len() + old(self).journal@.len() <= MAX_OPERATIONS,
        ensures
            r is Err <==> !old(self).call.is_persistent && old(self).container.ops@.len() + 1
                != old(self).call.rw_counter_end_of_reversion,
            r is Err ==> *final(self) == *old(self),
            r is Ok ==> {
                let n = old(self).journal@.len();
                let undos = if old(self).call.is_persistent {
                    Seq::<(RW, OpView)>::empty()
                } else {
                    Seq::new(n, |i: int| (RW::Write, old(self).journal_view()[n - 1 - i]))
                };
                &&& final(self).wf()
                &&& final(self).container.ops() == old(self).container.ops() + stamped(
                    old(self).container.ops@.len(),
                    undos,
                )
                &&& refs_since(&final(self).container, r->Ok_0@, old(self).container.ops@.len())
                &&& forall|a: u64, k: Seq<u8>| #[trigger] final(self).sdb.storage_value(a, k)
                    == replay_storage(old(self).sdb, undos.map_values(|x: (RW, OpView)| x.1), a, k)
                &&& final(self).sdb.refund == replay_refund(
                    old(self).sdb.refund,
                    undos.map_values(|x: (RW, OpView)| x.1),
                )
                &&& final(self).sdb.committed == old(self).sdb.committed
                &&& final(self).sdb.accounts == old(self).sdb.accounts
                &&& final(self).sdb.warm_accounts == old(self).sdb.warm_accounts
                &&& final(self).sdb.warm_slots == old(self).sdb.warm_slots
                &&& final(self).tx_id == old(self).tx_id
                &&& old(self).parents@.len() > 0 ==> final(self).call == old(self).parents@.last().call
                    && final(self).parents@ == old(self).parents@.drop_last()
                &&& old(self).parents@.len() == 0 ==> final(self).parents@.len() == 0
            },
    {
        let mut refs: Vec<OpRef> = Vec::new();
        if !self.call.is_persistent {
            if self.rw_counter() != self.call.rw_counter_end_of_reversion {
                return Err(Error::InternalInvariantViolation);
            }
            let ghost base = self.container.ops();
            let ghost jv = self.journal_view();
            let ghost n = self.journal@.len();
            let mut done: Ghost<Seq<(RW, OpView)>> = Ghost(Seq::empty());
            assert(base + stamped(base.len(), done@) =~= base);
            assert(self.journal@ =~= old(self).journal@.subrange(0, n as int));
            assert(done@ =~= Seq::new(0nat, |i: int| (RW::Write, jv[n - 1 - i])));
            assert(done@.map_values(|x: (RW, OpView)| x.1) =~= Seq::<OpView>::empty());
            while self.journal.len() > 0
                invariant
                    self.container.wf(),
                    base == old(self).container.ops(),
                    base.len() == old(self).container.ops@.len(),
                    self.container.ops@.len() + self.journal@.len() <= MAX_OPERATIONS,
                    n == old(self).journal@.len(),
                    jv == old(self).journal_view(),
                    self.journal@.len() <= n,
                    self.journal@ == old(self).journal@.subrange(0, self.journal@.len() as int),
                    done@ == Seq::new((n - self.journal@.len()) as nat, |i: int| (RW::Write, jv[n - 1 - i])),
                    self.container.ops() == base + stamped(base.len(), done@),
                    refs_since(&self.container, refs@, base.len()),
                    self.parents == old(self).parents,
                    forall|a: u64, k: Seq<u8>| #[trigger] self.sdb.storage_value(a, k) == replay_storage(
                        old(self).sdb,
                        done@.map_values(|x: (RW, OpView)| x.1),
                        a,
                        k,
                    ),
                    self.sdb.refund == replay_refund(old(self).sdb.refund, done@.map_values(|x: (RW, OpView)| x.1)),
                    self.sdb.committed == old(self).sdb.committed,
                    self.sdb.accounts == old(self).sdb.accounts,
                    self.sdb.warm_accounts == old(self).sdb.warm_accounts,
                    self.sdb.warm_slots == old(self).sdb.warm_slots,
                    self.call == old(self).call,
                    self.call_data == old(self).call_data,
                    self.memory == old(self).memory,
                    self.tx_id == old(self).tx_id,
                    self.call_index == old(self).call_index,
                    self.copy_events == old(self).copy_events,
                decreases self.journal@.len(),
            {
                let ghost k = self.journal@.len();
                let u = self.journal.pop().unwrap();
                assert(u@ == jv[k - 1]);
                let ghost before = done@.map_values(|x: (RW, OpView)| x.1);
                let ghost sdb0 = self.sdb;
                match &u {
                    Op::Storage(o) => {
                        self.sdb.set_storage(o.address, &o.key, &o.value);
                    },
                    Op::TxRefund(o) => {
                        self.sdb.refund = o.value;
                    },
                    _ => {},
                }
                let ghost after = before.push(u@);
                proof {
                    assert(after.drop_last() =~= before);
                    assert forall|a: u64, k: Seq<u8>| #[trigger] self.sdb.storage_value(a, k)
                        == replay_storage(old(self).sdb, after, a, k) by {
                        if !(u@ is Storage) {
                            assert(sdb0.storage_value(a, k) == self.sdb.storage_value(a, k));
                        }
                    }
                }
                done = record(&mut self.container, &mut refs, RW::Write, u, Ghost(base), done);
                assert(self.journal@ =~= old(self).journal@.subrange(0, self.journal@.len() as int));
                assert(done@ =~= Seq::new((n - self.journal@.len()) as nat, |i: int| (RW::Write, jv[n - 1 - i])));
                assert(done@.map_values(|x: (RW, OpView)| x.1) =~= after);
            }
            self.call.reversible_write_counter = 0;
        }
        proof {
            assert forall|i: int| 0 <= i < self.parents@.len() implies (#[trigger] self.parents@[i]).wf(
                self.container.ops@.len(),
            ) by {
                assert(old(self).parents@[i].wf(old(self).container.ops@.len()));
            }
        }
        proof {
            if old(self).call.is_persistent {
                assert(Seq::<(RW, OpView)>::empty().map_values(|x: (RW, OpView)| x.1) =~= Seq::<OpView>::empty());
            }
        }
        match self.parents.pop() {
            Some(f) => {
                self.call = f.call;
                self.call_data = f.call_data;
                self.memory = f.memory;
                self.journal = f.journal;
            },
            None => {},
        }
        Ok(refs)
    }
}

} // verus!
