use bus_mapping::builder::{Call, CircuitInputState, TraceStep};
use bus_mapping::consts::{ControlInstruction, NumType, NumericInstruction, VariableInstruction, WasmSectionId};
use bus_mapping::execution::{error_execution_state, opcode_execution_state, ExecError, ExecState, ExecutionState, OogError, OpcodeId};
use bus_mapping::handler::handle_steps;
use bus_mapping::state::StateDb;
use bus_mapping::witness::{step_convert, ExecStep, RwTableTag};

fn root_call(call_data_length: u64) -> Call {
    Call {
        call_id: 1,
        caller_id: 0,
        is_root: true,
        is_static: false,
        is_persistent: true,
        rw_counter_end_of_reversion: 0,
        reversible_write_counter: 0,
        address: 0xc0de,
        call_data_offset: 0,
        call_data_length,
    }
}

fn entry(op: OpcodeId, stack: Vec<u64>, memory: Vec<u8>) -> TraceStep {
    TraceStep { pc: 0, op, gas: 1000, gas_cost: 3, refund: 0, depth: 1, stack, memory }
}

fn witness_step(memory_size: u64) -> ExecStep {
    ExecStep {
        call_index: 0,
        rw_indices: vec![],
        copy_rw_counter_delta: 0,
        execution_state: ExecutionState::STOP,
        rw_counter: 1,
        program_counter: 0,
        stack_pointer: 1024,
        gas_left: 0,
        gas_cost: 0,
        memory_size,
        reversible_write_counter: 0,
        reversible_write_counter_delta: 0,
        log_id: 0,
        opcode: None,
    }
}

#[test]
fn memory_word_size_rounds_up() {
    assert_eq!(witness_step(0).memory_word_size(), 0);
    assert_eq!(witness_step(8).memory_word_size(), 1);
    assert_eq!(witness_step(9).memory_word_size(), 2);
    assert_eq!(witness_step(64).memory_word_size(), 8);
    assert_eq!(witness_step(u64::MAX).memory_word_size(), u64::MAX / 8 + 1);
}

#[test]
fn driver_builds_consecutive_steps() {
    let mut state = CircuitInputState::new(1, root_call(4), vec![1, 2, 3, 4], StateDb::new());
    let mut m1 = vec![0u8; 32];
    m1[..4].copy_from_slice(&[1, 2, 3, 4]);
    let mut m2 = m1.clone();
    m2.resize(0x60, 0);
    m2[0x40..0x60].copy_from_slice(&ethers_core::utils::keccak256(&m1));
    let mut m3 = m2.clone();
    m3.resize(0x84, 0);
    let trace = vec![
        entry(OpcodeId::CALLDATALOAD, vec![0, 0], vec![]),
        entry(OpcodeId::SHA3, vec![0, 32, 0x40], m1),
        entry(OpcodeId::EXTCODESIZE, vec![5, 0x80], m2),
        entry(OpcodeId::STOP, vec![], m3),
    ];
    let steps = handle_steps(&mut state, &trace).unwrap();
    assert_eq!(steps.len(), 3);
    for (k, step) in steps.iter().enumerate() {
        assert_eq!(step.exec_state, ExecState::Op(trace[k].op));
    }
    assert_eq!(state.memory, trace[3].memory);
    assert_eq!(steps[0].rwc, 1);
    assert_eq!(steps[1].rwc, 1 + 36);
    assert_eq!(steps[2].rwc, 1 + 36 + 3 + 32 + 32);
    assert_eq!(state.rw_counter(), steps[2].rwc + 11);
    for (i, o) in state.container.ops.iter().enumerate() {
        assert_eq!(o.rwc, i as u64 + 1);
    }
    let converted = step_convert(&steps[1]);
    assert_eq!(converted.execution_state, ExecutionState::SHA3);
    assert_eq!(converted.opcode, Some(OpcodeId::SHA3));
    assert_eq!(converted.rw_counter, 37);
    assert_eq!(converted.stack_pointer, 1021);
    assert_eq!(converted.gas_cost, 3);
    assert_eq!(converted.rw_indices.len(), 3 + 32 + 32);
    assert_eq!(converted.rw_indices[0], (RwTableTag::Stack, 2));
    assert_eq!(converted.rw_indices[3].0, RwTableTag::Memory);
    assert_eq!(converted.copy_rw_counter_delta, 32);
}

#[test]
fn driver_stops_at_unsupported_opcode() {
    let mut state = CircuitInputState::new(1, root_call(0), vec![], StateDb::new());
    let trace = vec![entry(OpcodeId::ADDMOD, vec![1, 2, 3], vec![]), entry(OpcodeId::STOP, vec![], vec![])];
    assert_eq!(handle_steps(&mut state, &trace).unwrap_err(), bus_mapping::builder::Error::UnsupportedOpcode);
    let bad = vec![entry(OpcodeId::CALLDATALOAD, vec![0, 0], vec![]), entry(OpcodeId::STOP, vec![], vec![])];
    assert_eq!(handle_steps(&mut state, &bad).unwrap_err(), bus_mapping::builder::Error::MalformedTrace);
    assert_eq!(state.container.len(), 0);
    assert!(handle_steps(&mut state, &[]).unwrap().is_empty());
}

#[test]
fn execution_states_of_opcodes_and_errors() {
    assert_eq!(opcode_execution_state(OpcodeId::I32Add), ExecutionState::WASM_BIN);
    assert_eq!(opcode_execution_state(OpcodeId::TeeLocal), ExecutionState::WASM_LOCAL);
    assert_eq!(opcode_execution_state(OpcodeId::LOG3), ExecutionState::LOG);
    assert_eq!(opcode_execution_state(OpcodeId::NUMBER), ExecutionState::BLOCKCTXU64);
    assert_eq!(opcode_execution_state(OpcodeId::REVERT), ExecutionState::RETURN_REVERT);
    assert_eq!(error_execution_state(ExecError::StackUnderflow), ExecutionState::ErrorStack);
    assert_eq!(
        error_execution_state(ExecError::OutOfGas(OogError::Sha3)),
        ExecutionState::ErrorOutOfGasSHA3
    );
    let mut state = CircuitInputState::new(1, root_call(0), vec![], StateDb::new());
    let digest = ethers_core::utils::keccak256(&[]).to_vec();
    let trace = vec![entry(OpcodeId::SHA3, vec![0, 0, 0], vec![]), entry(OpcodeId::STOP, vec![], digest)];
    let mut steps = handle_steps(&mut state, &trace).unwrap();
    steps[0].error = Some(ExecError::OutOfGas(OogError::Constant));
    assert_eq!(step_convert(&steps[0]).execution_state, ExecutionState::ErrorOutOfGasConstant);
    steps[0].error = None;
    steps[0].exec_state = ExecState::EndTx;
    let converted = step_convert(&steps[0]);
    assert_eq!(converted.execution_state, ExecutionState::EndTx);
    assert_eq!(converted.opcode, None);
}

#[test]
fn wasm_instruction_codes() {
    assert_eq!(NumericInstruction::try_from(0x41), Ok(NumericInstruction::I32Const));
    assert_eq!(NumericInstruction::try_from(0x6a), Ok(NumericInstruction::I32Add));
    assert_eq!(NumericInstruction::try_from(0x7c), Ok(NumericInstruction::I64Add));
    assert_eq!(NumericInstruction::try_from(0x6b), Err(()));
    assert_eq!(VariableInstruction::try_from(0x22), Ok(VariableInstruction::LocalTee));
    assert_eq!(VariableInstruction::try_from(0x25), Err(()));
    assert_eq!(ControlInstruction::try_from(0x0d), Ok(ControlInstruction::BrIf));
    assert_eq!(ControlInstruction::try_from(0x03), Ok(ControlInstruction::Loop));
    assert_eq!(ControlInstruction::try_from(0x01), Err(()));
    assert_eq!(usize::from(NumericInstruction::F64ReinterpretI64), 0xbf);
    assert_eq!(usize::from(VariableInstruction::GlobalSet), 0x24);
    assert_eq!(usize::from(ControlInstruction::CallIndirect), 0x11);
    assert_eq!(NumType::I64.code(), 0x7e);
    assert_eq!(WasmSectionId::DataCount.code(), 12);
    assert!(NumericInstruction::I32Const < NumericInstruction::I64Const);
}
