//! The step as the circuit consumes it, converted from a built step.
use vstd::prelude::*;
use crate::builder::{self, STACK_CAPACITY};
use crate::execution::{
    error_execution_state, error_execution_state_spec, opcode_execution_state,
    opcode_execution_state_spec, ExecState, ExecutionState, OpcodeId,
};
use crate::operation::{OpRef, Target};

verus! {

/// The number of bytes of a memory word of the circuit.
pub const N_BYTES_U64: u64 = 8;

/// The tables of read/write operations the circuit looks up.
#[derive(Clone, Copy, Debug, PartialEq, Eq, Structural)]
pub enum RwTableTag {
    Stack,
    Memory,
    AccountStorage,
    TxAccessListAccount,
    TxAccessListAccountStorage,
    TxRefund,
    Account,
    CallContext,
}

/// The table of an operation kind.
pub open spec fn table_of(t: Target) -> RwTableTag {
    match t {
        Target::Memory => RwTableTag::Memory,
        Target::Stack => RwTableTag::Stack,
        Target::Storage => RwTableTag::AccountStorage,
        Target::TxAccessListAccount => RwTableTag::TxAccessListAccount,
        Target::TxAccessListAccountStorage => RwTableTag::TxAccessListAccountStorage,
        Target::TxRefund => RwTableTag::TxRefund,
        Target::Account => RwTableTag::Account,
        Target::CallContext => RwTableTag::CallContext,
    }
}

/// The table of an operation kind.
pub fn table_tag(t: Target) -> (r: RwTableTag)
    ensures
        r == table_of(t),
{
    match t {
        Target::Memory => RwTableTag::Memory,
        Target::Stack => RwTableTag::Stack,
        Target::Storage => RwTableTag::AccountStorage,
        Target::TxAccessListAccount => RwTableTag::TxAccessListAccount,
        Target::TxAccessListAccountStorage => RwTableTag::TxAccessListAccountStorage,
        Target::TxRefund => RwTableTag::TxRefund,
        Target::Account => RwTableTag::Account,
        Target::CallContext => RwTableTag::CallContext,
    }
}

/// Step executed in a transaction.
#[derive(Debug)]
pub struct ExecStep {
    /// The index in the transaction's calls.
    pub call_index: usize,
    /// The operations of this step: their table and index in it.
    pub rw_indices: Vec<(RwTableTag, usize)>,
    /// Number of operations performed through a copy event in this step.
    pub copy_rw_counter_delta: u64,
    /// The execution state of the step.
    pub execution_state: ExecutionState,
    /// The read/write counter before the step.
    pub rw_counter: u64,
    /// The program counter.
    pub program_counter: u64,
    /// The stack pointer.
    pub stack_pointer: usize,
    /// The amount of gas left.
    pub gas_left: u64,
    /// The gas cost of this step.
    pub gas_cost: u64,
    /// The memory size in bytes.
    pub memory_size: u64,
    /// The counter of reversible writes at the beginning of the step.
    pub reversible_write_counter: u64,
    /// The number of reversible writes of this step.
    pub reversible_write_counter_delta: u64,
    /// The counter of log indices within the transaction.
    pub log_id: usize,
    /// The opcode the step runs, if it runs one.
    pub opcode: Option<OpcodeId>,
}

impl ExecStep {
    /// The memory size in words before this step: WASM memory is not
    /// padded to words, so a partial word counts as one.
    pub fn memory_word_size(&self) -> (r: u64)
        ensures
            r == (self.memory_size + N_BYTES_U64 - 1) / N_BYTES_U64 as int,
    {
        let mut word_count = self.memory_size / N_BYTES_U64;
        if word_count * N_BYTES_U64 < self.memory_size {
            word_count = word_count + 1;
        }
        word_count
    }
}

/// The execution state of a built step: its failure's if it failed, else
/// that of what it executes.
pub open spec fn step_execution_state(step: &builder::ExecStep) -> ExecutionState {
    match step.error {
        Some(e) => error_execution_state_spec(e),
        None => match step.exec_state {
            ExecState::Op(op) => opcode_execution_state_spec(op),
            ExecState::BeginTx => ExecutionState::BeginTx,
            ExecState::EndTx => ExecutionState::EndTx,
            ExecState::EndBlock => ExecutionState::EndBlock,
        },
    }
}

/// The execution state of a built step.
pub fn execution_state_of(step: &builder::ExecStep) -> (r: ExecutionState)
    ensures
        r == step_execution_state(step),
{
    match step.error {
        Some(e) => error_execution_state(e),
        None => match step.exec_state {
            ExecState::Op(op) => opcode_execution_state(op),
            ExecState::BeginTx => ExecutionState::BeginTx,
            ExecState::EndTx => ExecutionState::EndTx,
            ExecState::EndBlock => ExecutionState::EndBlock,
        },
    }
}

/// The tables and indices of a step's operations.
fn rw_indices_of(refs: &Vec<OpRef>) -> (r: Vec<(RwTableTag, usize)>)
    ensures
        r@.len() == refs@.len(),
        forall|i: int| 0 <= i < refs@.len() ==> #[trigger] r@[i] == (table_of(refs@[i].target), refs@[i].index),
{
    let mut r: Vec<(RwTableTag, usize)> = Vec::new();
    let mut i: usize = 0;
    while i < refs.len()
        invariant
            i <= refs@.len(),
            r@.len() == i,
            forall|j: int| 0 <= j < i ==> #[trigger] r@[j] == (table_of(refs@[j].target), refs@[j].index),
        decreases refs@.len() - i,
    {
        r.push((table_tag(refs[i].target), refs[i].index));
        i = i + 1;
    }
    r
}

/// The step the circuit consumes for a built step.
pub fn step_convert(step: &builder::ExecStep) -> (r: ExecStep)
    requires
        step.stack_size <= STACK_CAPACITY,
    ensures
        r.call_index == step.call_index,
        r.rw_indices@.len() == step.bus_mapping_instance@.len(),
        forall|i: int| 0 <= i < step.bus_mapping_instance@.len() ==> #[trigger] r.rw_indices@[i] == (
            table_of(step.bus_mapping_instance@[i].target),
            step.bus_mapping_instance@[i].index,
        ),
        r.copy_rw_counter_delta == step.copy_rw_counter_delta,
        r.execution_state == step_execution_state(step),
        r.rw_counter == step.rwc,
        r.program_counter == step.pc,
        r.stack_pointer == STACK_CAPACITY - step.stack_size,
        r.gas_left == step.gas_left,
        r.gas_cost == step.gas_cost,
        r.opcode == match step.exec_state {
            ExecState::Op(op) => Some(op),
            _ => None::<OpcodeId>,
        },
        r.memory_size == step.memory_size,
        r.reversible_write_counter == step.reversible_write_counter,
        r.reversible_write_counter_delta == step.reversible_write_counter_delta,
        r.log_id == step.log_id,
{
    ExecStep {
        call_index: step.call_index,
        rw_indices: rw_indices_of(&step.bus_mapping_instance),
        copy_rw_counter_delta: step.copy_rw_counter_delta,
        execution_state: execution_state_of(step),
        rw_counter: step.rwc,
        program_counter: step.pc,
        stack_pointer: (STACK_CAPACITY as usize) - step.stack_size,
        gas_left: step.gas_left,
        gas_cost: step.gas_cost,
        opcode: match step.exec_state {
            ExecState::Op(op) => Some(op),
            _ => None,
        },
        memory_size: step.memory_size as u64,
        reversible_write_counter: step.reversible_write_counter,
        reversible_write_counter_delta: step.reversible_write_counter_delta,
        log_id: step.log_id,
    }
}

} // verus!
