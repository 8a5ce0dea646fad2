use bus_mapping::builder::{Call, CircuitInputState, CopyDataType, Error, TraceStep};
use bus_mapping::calldataload::Calldataload;
use bus_mapping::execution::OpcodeId;
use bus_mapping::extcodesize::Extcodesize;
use bus_mapping::handler::gen_associated_ops;
use bus_mapping::operation::{AccountField, CallContextField, Op, Operation, RW, Target};
use bus_mapping::sha3::Sha3;
use bus_mapping::sstore::Sstore;
use bus_mapping::state::StateDb;

const CONTRACT: u64 = 0xc0de;

fn call(call_data_length: u64) -> Call {
    Call {
        call_id: 1,
        caller_id: 0,
        is_root: true,
        is_static: false,
        is_persistent: true,
        rw_counter_end_of_reversion: 0,
        reversible_write_counter: 0,
        address: CONTRACT,
        call_data_offset: 0,
        call_data_length,
    }
}

fn trace(op: OpcodeId, stack: Vec<u64>, refund: u64, after: Vec<u8>) -> Vec<TraceStep> {
    vec![
        TraceStep { pc: 0, op, gas: 100_000, gas_cost: 0, refund: 0, depth: 1, stack, memory: vec![] },
        TraceStep { pc: 1, op: OpcodeId::STOP, gas: 90_000, gas_cost: 0, refund, depth: 1, stack: vec![], memory: after },
    ]
}

/// Memory grown to `grow` bytes with `bytes` written at `dest`.
fn after_write(mem: &[u8], grow: usize, dest: usize, bytes: &[u8]) -> Vec<u8> {
    let mut m = mem.to_vec();
    if m.len() < grow {
        m.resize(grow, 0);
    }
    m[dest..dest + bytes.len()].copy_from_slice(bytes);
    m
}

fn window(data: &[u8], offset: usize) -> Vec<u8> {
    (0..32).map(|i| data.get(offset + i).cloned().unwrap_or(0)).collect()
}

fn sstore_steps(state: &CircuitInputState, refund: u64) -> Vec<TraceStep> {
    trace(OpcodeId::SSTORE, vec![0, 32], refund, state.memory.clone())
}

fn word(v: u64) -> Vec<u8> {
    let mut w = vec![0u8; 24];
    w.extend_from_slice(&v.to_be_bytes());
    w
}

fn pseudo_random(n: usize, seed: u64) -> Vec<u8> {
    let mut x = seed;
    (0..n)
        .map(|_| {
            x = x.wrapping_mul(6364136223846793005).wrapping_add(1442695040888963407);
            (x >> 33) as u8
        })
        .collect()
}

fn step_ops<'a>(state: &'a CircuitInputState, refs: &[bus_mapping::operation::OpRef]) -> Vec<&'a Operation> {
    refs.iter().map(|r| state.container.get(*r)).collect()
}

fn memory_bytes(ops: &[&Operation], rw: RW) -> Vec<(u64, u8)> {
    ops.iter()
        .filter(|o| o.rw == rw)
        .filter_map(|o| match &o.op {
            Op::Memory(m) => Some((m.address, m.value)),
            _ => None,
        })
        .collect()
}

fn assert_counters_consecutive(state: &CircuitInputState) {
    for (i, o) in state.container.ops.iter().enumerate() {
        assert_eq!(o.rwc, i as u64 + 1);
    }
}

fn calldataload_root(offset: u64, calldata: Vec<u8>) -> Vec<u8> {
    let mut state = CircuitInputState::new(1, call(calldata.len() as u64), calldata, StateDb::new());
    let dest = 0x7f;
    let after = after_write(&[], dest as usize + 32, dest as usize, &window(&state.call_data, offset as usize));
    let steps = trace(OpcodeId::CALLDATALOAD, vec![offset, dest], 0, after);
    let step = Calldataload::gen_associated_ops(&mut state, &steps).unwrap();
    assert_eq!(step.bus_mapping_instance.len(), 36);
    let ops = step_ops(&state, &step.bus_mapping_instance);
    match &ops[0].op {
        Op::Stack(s) => {
            assert_eq!((s.address, s.value), (1023, offset));
        }
        _ => panic!("expected a stack read"),
    }
    match (&ops[1].op, &ops[2].op) {
        (Op::CallContext(a), Op::CallContext(b)) => {
            assert_eq!((a.field, a.value), (CallContextField::TxId, 1));
            assert_eq!((b.field, b.value), (CallContextField::CallDataLength, state.call.call_data_length));
        }
        _ => panic!("expected call-context reads"),
    }
    match &ops[3].op {
        Op::Stack(s) => assert_eq!((s.address, s.value), (1022, dest)),
        _ => panic!("expected a stack read"),
    }
    let writes = memory_bytes(&ops, RW::Write);
    assert_eq!(writes.len(), 32);
    for (i, (a, _)) in writes.iter().enumerate() {
        assert_eq!(*a, dest + i as u64);
    }
    assert_eq!(state.memory[dest as usize..dest as usize + 32].to_vec(), writes.iter().map(|w| w.1).collect::<Vec<u8>>());
    assert_counters_consecutive(&state);
    writes.iter().map(|w| w.1).collect()
}

#[test]
fn calldataload_opcode_root() {
    let mut expected = vec![0u8; 32];
    expected[0] = 1;
    expected[1] = 2;
    assert_eq!(calldataload_root(0, vec![1u8, 2u8]), expected);

    let calldata = pseudo_random(32, 7);
    assert_eq!(calldataload_root(0, calldata.clone()), calldata);

    let calldata = pseudo_random(64, 11);
    assert_eq!(calldataload_root(12, calldata.clone()), calldata[12..44].to_vec());
}

#[test]
fn calldataload_right_pads_short_calldata() {
    let mut expected = vec![0u8; 32];
    expected[0] = 1;
    expected[1] = 2;
    assert_eq!(calldataload_root(0, vec![1, 2]), expected);
}

#[test]
fn calldataload_exact_window_of_longer_calldata() {
    let calldata = pseudo_random(64, 3);
    assert_eq!(calldataload_root(12, calldata.clone()), calldata[12..44].to_vec());
}

#[test]
fn calldataload_offset_past_end_gives_zeros() {
    assert_eq!(calldataload_root(40, vec![9u8; 8]), vec![0u8; 32]);
}

#[test]
fn calldataload_internal_call_reads_caller_memory() {
    let mut state = CircuitInputState::new(1, call(0), vec![], StateDb::new());
    let data = pseudo_random(16, 5);
    let inner = Call {
        call_id: 2,
        caller_id: 1,
        is_root: false,
        is_static: false,
        is_persistent: true,
        rw_counter_end_of_reversion: 0,
        reversible_write_counter: 0,
        address: 0xbeef,
        call_data_offset: 0x10,
        call_data_length: 16,
    };
    state.begin_call(inner, data.clone(), 1);
    let steps = trace(OpcodeId::CALLDATALOAD, vec![4, 0], 0, after_write(&[], 32, 0, &window(&data, 4)));
    let step = Calldataload::gen_associated_ops(&mut state, &steps).unwrap();
    // 1 stack read, 3 call-context reads, 12 caller-memory reads, 1 stack read, 32 writes.
    assert_eq!(step.bus_mapping_instance.len(), 1 + 3 + 12 + 1 + 32);
    let ops = step_ops(&state, &step.bus_mapping_instance);
    let fields: Vec<CallContextField> = ops[1..4]
        .iter()
        .map(|o| match &o.op {
            Op::CallContext(c) => c.field,
            _ => panic!("expected a call-context read"),
        })
        .collect();
    assert_eq!(fields, vec![CallContextField::CallerId, CallContextField::CallDataLength, CallContextField::CallDataOffset]);
    for (i, o) in ops[4..16].iter().enumerate() {
        match &o.op {
            Op::Memory(m) => {
                assert_eq!(o.rw, RW::Read);
                assert_eq!((m.call_id, m.address, m.value), (1, 0x10 + 4 + i as u64, data[4 + i]));
            }
            _ => panic!("expected a memory read"),
        }
    }
    let mut expected = data[4..].to_vec();
    expected.resize(32, 0);
    assert_eq!(memory_bytes(&ops, RW::Write).iter().map(|w| w.1).collect::<Vec<u8>>(), expected);
}

#[test]
fn calldataload_missing_lookahead_is_malformed() {
    let mut state = CircuitInputState::new(1, call(2), vec![1, 2], StateDb::new());
    let mut steps = trace(OpcodeId::CALLDATALOAD, vec![0, 0], 0, vec![]);
    steps.truncate(1);
    assert_eq!(Calldataload::gen_associated_ops(&mut state, &steps).unwrap_err(), Error::MalformedTrace);
    assert_eq!(state.container.len(), 0);
}

#[test]
fn calldataload_lookahead_without_loaded_bytes_is_malformed() {
    let mut state = CircuitInputState::new(1, call(2), vec![1, 2], StateDb::new());
    let steps = trace(OpcodeId::CALLDATALOAD, vec![0, 0], 0, vec![0u8; 32]);
    assert_eq!(Calldataload::gen_associated_ops(&mut state, &steps).unwrap_err(), Error::MalformedTrace);
    assert_eq!(state.container.len(), 0);
    assert!(state.memory.is_empty());
}

#[test]
fn sha3_lookahead_with_other_digest_is_malformed() {
    let mut state = CircuitInputState::new(1, call(0), vec![], StateDb::new());
    let steps = trace(OpcodeId::SHA3, vec![0, 4, 0x20], 0, vec![0u8; 0x40]);
    assert_eq!(Sha3::gen_associated_ops(&mut state, &steps).unwrap_err(), Error::MalformedTrace);
    assert_eq!(state.container.len(), 0);
}

#[test]
fn sstore_lookahead_with_changed_memory_is_malformed() {
    let mut state = sstore_state(0x6f);
    set_words(&mut state, 0, 0x6f);
    let steps = trace(OpcodeId::SSTORE, vec![0, 32], 0, vec![]);
    assert_eq!(Sstore::gen_associated_ops(&mut state, &steps).unwrap_err(), Error::MalformedTrace);
}

#[test]
fn extcodesize_lookahead_with_other_size_is_malformed() {
    let mut state = CircuitInputState::new(1, call(0), vec![], StateDb::new());
    let steps = trace(OpcodeId::EXTCODESIZE, vec![5, 0], 0, vec![0, 0, 0, 1]);
    assert_eq!(Extcodesize::gen_associated_ops(&mut state, &steps).unwrap_err(), Error::MalformedTrace);
}

#[test]
fn calldataload_destination_past_memory_limit() {
    let mut state = CircuitInputState::new(1, call(2), vec![1, 2], StateDb::new());
    let steps = trace(OpcodeId::CALLDATALOAD, vec![0, 0xFFFF_FFF0], 0, vec![]);
    assert_eq!(Calldataload::gen_associated_ops(&mut state, &steps).unwrap_err(), Error::OutOfRangeAccess);
}

#[test]
fn stack_over_capacity_is_out_of_range() {
    let mut state = CircuitInputState::new(1, call(0), vec![], StateDb::new());
    let steps = trace(OpcodeId::CALLDATALOAD, vec![0; 1025], 0, vec![]);
    assert_eq!(Calldataload::gen_associated_ops(&mut state, &steps).unwrap_err(), Error::OutOfRangeAccess);
}

fn sha3_case(offset: u64, size: u64, data: Vec<u8>) {
    let mut state = CircuitInputState::new(1, call(0), vec![], StateDb::new());
    state.memory = data.clone();
    let dest = 0x400;
    let mut window: Vec<u8> = data.iter().skip(offset as usize).take(size as usize).cloned().collect();
    window.resize(size as usize, 0);
    let digest = ethers_core::utils::keccak256(&window);
    let grown = after_write(&data, (offset + size) as usize, 0, &[]);
    let steps = trace(OpcodeId::SHA3, vec![offset, size, dest], 0, after_write(&grown, dest as usize + 32, dest as usize, &digest));
    let step = Sha3::gen_associated_ops(&mut state, &steps).unwrap();
    assert_eq!(step.bus_mapping_instance.len(), 3 + size as usize + 32);
    let ops = step_ops(&state, &step.bus_mapping_instance);
    let reads = memory_bytes(&ops, RW::Read);
    assert_eq!(reads.len(), size as usize);
    for (i, (a, v)) in reads.iter().enumerate() {
        assert_eq!((*a, *v), (offset + i as u64, window[i]));
    }
    let writes = memory_bytes(&ops, RW::Write);
    assert_eq!(writes.iter().map(|w| w.1).collect::<Vec<u8>>(), digest.to_vec());
    assert_eq!(state.memory[dest as usize..dest as usize + 32].to_vec(), digest.to_vec());
    assert_eq!(state.copy_events.len(), 1);
    let event = &state.copy_events[0];
    assert_eq!(event.bytes.len(), size as usize);
    for (i, (v, is_code)) in event.bytes.iter().enumerate() {
        assert_eq!(*v, window[i]);
        assert!(!is_code);
    }
    assert_eq!(event.src_type, CopyDataType::Memory);
    assert_eq!(event.dst_type, CopyDataType::RlcAcc);
    assert_eq!((event.src_addr, event.src_addr_end), (offset, offset + size));
    assert_eq!(event.rw_counter_start, 4);
    assert_eq!(step.copy_rw_counter_delta, size);
    assert_counters_consecutive(&state);
}

#[test]
fn sha3_opcode_ok() {
    sha3_case(0x10, 0x32, vec![]);
    sha3_case(0x34, 0x44, pseudo_random(0x34 + 0x20, 1));
    sha3_case(0x222, 0x111, pseudo_random(0x222 + 0x111, 2));
    sha3_case(0x20, 0x30, pseudo_random(0x20 + 0x30 + 0x10, 3));
}

#[test]
fn sha3_empty_memory_is_zero_extended() {
    let mut state = CircuitInputState::new(1, call(0), vec![], StateDb::new());
    let digest = ethers_core::utils::keccak256(&[0u8; 0x32]);
    let steps = trace(OpcodeId::SHA3, vec![0x10, 0x32, 0x400], 0, after_write(&[], 0x420, 0x400, &digest));
    let step = Sha3::gen_associated_ops(&mut state, &steps).unwrap();
    assert!(state.memory.len() >= 0x10 + 0x32);
    assert_eq!(state.copy_events.len(), 1);
    assert_eq!(state.copy_events[0].bytes, vec![(0u8, false); 0x32]);
    let ops = step_ops(&state, &step.bus_mapping_instance);
    assert_eq!(memory_bytes(&ops, RW::Read).len(), 0x32);
    let digest = memory_bytes(&ops, RW::Write).iter().map(|w| w.1).collect::<Vec<u8>>();
    assert_eq!(digest, ethers_core::utils::keccak256(&[0u8; 0x32]).to_vec());
    assert_ne!(digest, vec![0u8; 32]);
}

#[test]
fn sha3_with_given_digest_writes_it() {
    let mut state = CircuitInputState::new(1, call(0), vec![], StateDb::new());
    state.memory = vec![7u8; 8];
    let digest: Vec<u8> = (0u8..32).collect();
    let steps = trace(OpcodeId::SHA3, vec![2, 4, 0x20], 0, after_write(&[7u8; 8], 0x40, 0x20, &digest));
    let step = Sha3::gen_associated_ops_with_digest(&mut state, &steps, &digest).unwrap();
    assert_eq!(step.bus_mapping_instance.len(), 3 + 4 + 32);
    assert_eq!(state.memory[0x20..0x40].to_vec(), digest);
    assert_eq!(state.memory[..8].to_vec(), vec![7u8; 8]);
}

#[test]
fn sha3_zero_size_reads_nothing() {
    let mut state = CircuitInputState::new(1, call(0), vec![], StateDb::new());
    let empty = ethers_core::utils::keccak256(&[]);
    let steps = trace(OpcodeId::SHA3, vec![0xFFFF_FFFF, 0, 0], 0, after_write(&[], 32, 0, &empty));
    let step = Sha3::gen_associated_ops(&mut state, &steps).unwrap();
    assert_eq!(step.bus_mapping_instance.len(), 3 + 32);
    assert_eq!(state.copy_events[0].bytes.len(), 0);
    assert_eq!(state.memory[..32].to_vec(), ethers_core::utils::keccak256(&[]).to_vec());
}

#[test]
fn sha3_window_past_memory_limit() {
    let mut state = CircuitInputState::new(1, call(0), vec![], StateDb::new());
    let steps = trace(OpcodeId::SHA3, vec![0xFFFF_FFF0, 0x20, 0], 0, vec![]);
    assert_eq!(Sha3::gen_associated_ops(&mut state, &steps).unwrap_err(), Error::OutOfRangeAccess);
}

fn sstore_state(initial: u64) -> CircuitInputState {
    let mut sdb = StateDb::new();
    sdb.set_initial_storage(CONTRACT, &word(0), &word(initial));
    CircuitInputState::new(1, call(0), vec![], sdb)
}

fn set_words(state: &mut CircuitInputState, key: u64, value: u64) {
    let mut m = word(key);
    m.extend(word(value));
    state.memory = m;
}

fn sstore_refund_op(state: &CircuitInputState, refs: &[bus_mapping::operation::OpRef]) -> (u64, u64) {
    match &state.container.get(refs[9]).op {
        Op::TxRefund(r) => (r.value_prev, r.value),
        _ => panic!("expected a refund write"),
    }
}

#[test]
fn sstore_opcode_impl_cold() {
    let mut state = sstore_state(0x6f);
    set_words(&mut state, 0, 0x6f);
    let steps = sstore_steps(&state, 0);
    let step = Sstore::gen_associated_ops(&mut state, &steps).unwrap();
    assert_eq!(step.bus_mapping_instance.len(), 74);
    let ops = step_ops(&state, &step.bus_mapping_instance);
    let fields: Vec<(CallContextField, u64)> = ops[0..5]
        .iter()
        .map(|o| match &o.op {
            Op::CallContext(c) => (c.field, c.value),
            _ => panic!("expected a call-context read"),
        })
        .collect();
    assert_eq!(
        fields,
        vec![
            (CallContextField::TxId, 1),
            (CallContextField::IsStatic, 0),
            (CallContextField::RwCounterEndOfReversion, 0),
            (CallContextField::IsPersistent, 1),
            (CallContextField::CalleeAddress, CONTRACT),
        ]
    );
    match (&ops[5].op, &ops[6].op) {
        (Op::Stack(v), Op::Stack(k)) => {
            assert_eq!((v.address, v.value), (1022, 32));
            assert_eq!((k.address, k.value), (1023, 0));
        }
        _ => panic!("expected stack reads"),
    }
    match &ops[7].op {
        Op::Storage(s) => {
            assert_eq!(ops[7].rw, RW::Write);
            assert_eq!(s.address, CONTRACT);
            assert_eq!(s.key, word(0));
            assert_eq!(s.value, word(0x6f));
            assert_eq!(s.value_prev, word(0x6f));
            assert_eq!(s.committed_value, word(0x6f));
            assert_eq!(s.tx_id, 1);
        }
        _ => panic!("expected a storage write"),
    }
    match &ops[8].op {
        Op::TxAccessListAccountStorage(a) => assert_eq!((a.is_warm, a.is_warm_prev), (true, false)),
        _ => panic!("expected an access-list write"),
    }
    assert_eq!(sstore_refund_op(&state, &step.bus_mapping_instance), (0, 0));
    let reads = memory_bytes(&ops, RW::Read);
    assert_eq!(reads.len(), 64);
    assert_eq!(reads[31], (31, 0));
    assert_eq!(reads[63], (63, 0x6f));
    assert_eq!(step.reversible_write_counter_delta, 3);
    assert_counters_consecutive(&state);
}

#[test]
fn sstore_opcode_impl_warm() {
    let mut state = sstore_state(0x6f);
    // Clear the slot, then restore its committed value.
    set_words(&mut state, 0, 0);
    let first = { let steps = sstore_steps(&state, 0x12c0); Sstore::gen_associated_ops(&mut state, &steps) }.unwrap();
    assert_eq!(sstore_refund_op(&state, &first.bus_mapping_instance), (0, 0x12c0));
    set_words(&mut state, 0, 0x6f);
    let second = { let steps = sstore_steps(&state, 0xaf0); Sstore::gen_associated_ops(&mut state, &steps) }.unwrap();
    assert_eq!(sstore_refund_op(&state, &second.bus_mapping_instance), (0x12c0, 0xaf0));
    match &state.container.get(second.bus_mapping_instance[7]).op {
        Op::Storage(s) => {
            assert_eq!(s.value_prev, word(0));
            assert_eq!(s.value, word(0x6f));
        }
        _ => panic!("expected a storage write"),
    }
    match &state.container.get(second.bus_mapping_instance[8]).op {
        Op::TxAccessListAccountStorage(a) => assert!(a.is_warm_prev),
        _ => panic!("expected an access-list write"),
    }
    assert_eq!(second.rwc, 75);
    assert_counters_consecutive(&state);
}

#[test]
fn sstore_unchanged_value_keeps_refund() {
    let mut state = sstore_state(0x6f);
    set_words(&mut state, 0, 0x6f);
    let step = { let steps = sstore_steps(&state, 0); Sstore::gen_associated_ops(&mut state, &steps) }.unwrap();
    let (prev, new) = sstore_refund_op(&state, &step.bus_mapping_instance);
    assert_eq!(new - prev, 0);
    match &state.container.get(step.bus_mapping_instance[7]).op {
        Op::Storage(s) => assert_eq!(s.value_prev, word(0x6f)),
        _ => panic!("expected a storage write"),
    }
}

#[test]
fn sstore_fresh_slot_set_and_reset() {
    let mut state = sstore_state(0);
    set_words(&mut state, 0, 5);
    let _ = { let steps = sstore_steps(&state, 0); Sstore::gen_associated_ops(&mut state, &steps) }.unwrap();
    set_words(&mut state, 0, 0);
    let step = { let steps = sstore_steps(&state, 19900); Sstore::gen_associated_ops(&mut state, &steps) }.unwrap();
    assert_eq!(sstore_refund_op(&state, &step.bus_mapping_instance), (0, 19900));
}

#[test]
fn sstore_refund_mismatch_is_malformed() {
    let mut state = sstore_state(0x6f);
    set_words(&mut state, 0, 0);
    let steps = sstore_steps(&state, 1);
    assert_eq!(Sstore::gen_associated_ops(&mut state, &steps).unwrap_err(), Error::MalformedTrace);
    assert_eq!(state.container.len(), 0);
}

#[test]
fn sstore_word_outside_memory() {
    let mut state = sstore_state(0);
    set_words(&mut state, 0, 0);
    let steps = trace(OpcodeId::SSTORE, vec![0, 40], 0, state.memory.clone());
    assert_eq!(Sstore::gen_associated_ops(&mut state, &steps).unwrap_err(), Error::OutOfRangeAccess);
}

#[test]
fn sstore_missing_operand_is_malformed() {
    let mut state = sstore_state(0);
    let steps = trace(OpcodeId::SSTORE, vec![0], 0, vec![]);
    assert_eq!(Sstore::gen_associated_ops(&mut state, &steps).unwrap_err(), Error::MalformedTrace);
}

fn extcodesize_case(exists: bool, is_warm: bool) {
    let target = 0x4444;
    let code = pseudo_random(0x1234, 9);
    let hash = ethers_core::utils::keccak256(&code).to_vec();
    let mut sdb = StateDb::new();
    if exists {
        sdb.set_account(target, code.clone(), hash.clone());
    }
    let mut state = CircuitInputState::new(1, call(0), vec![], sdb);
    let dest = 0x7f;
    let size = if exists { code.len() as u32 } else { 0 };
    let after = after_write(&[], dest as usize + 4, dest as usize, &size.to_be_bytes());
    let steps = trace(OpcodeId::EXTCODESIZE, vec![target, dest], 0, after);
    if is_warm {
        Extcodesize::gen_associated_ops(&mut state, &steps).unwrap();
    }
    let step = Extcodesize::gen_associated_ops(&mut state, &steps).unwrap();
    assert_eq!(step.bus_mapping_instance.len(), 11);
    let ops = step_ops(&state, &step.bus_mapping_instance);
    match &ops[0].op {
        Op::Stack(s) => assert_eq!((s.address, s.value), (1023, target)),
        _ => panic!("expected a stack read"),
    }
    let fields: Vec<CallContextField> = ops[1..4]
        .iter()
        .map(|o| match &o.op {
            Op::CallContext(c) => c.field,
            _ => panic!("expected a call-context read"),
        })
        .collect();
    assert_eq!(fields, vec![CallContextField::TxId, CallContextField::RwCounterEndOfReversion, CallContextField::IsPersistent]);
    match &ops[4].op {
        Op::TxAccessListAccount(a) => {
            assert_eq!(ops[4].rw, RW::Write);
            assert_eq!((a.address, a.is_warm, a.is_warm_prev), (target, true, is_warm));
        }
        _ => panic!("expected an access-list write"),
    }
    match &ops[5].op {
        Op::Account(a) => {
            assert_eq!(ops[5].rw, RW::Read);
            assert_eq!(a.field, AccountField::CodeHash);
            let expected = if exists { hash.clone() } else { vec![0u8; 32] };
            assert_eq!(a.value, expected);
            assert_eq!(a.value_prev, expected);
        }
        _ => panic!("expected an account read"),
    }
    match &ops[6].op {
        Op::Stack(s) => assert_eq!((s.address, s.value), (1022, dest)),
        _ => panic!("expected a stack read"),
    }
    let writes = memory_bytes(&ops, RW::Write);
    assert_eq!(writes, (0..4).map(|i| (dest + i, size.to_be_bytes()[i as usize])).collect::<Vec<(u64, u8)>>());
    assert!(state.sdb.check_account_in_access_list(target));
    assert_eq!(step.reversible_write_counter_delta, 1);
    assert_counters_consecutive(&state);
}

#[test]
fn test_extcodesize_opcode_empty_acc() {
    extcodesize_case(false, false);
}

#[test]
fn test_extcodesize_opcode_cold_acc() {
    extcodesize_case(true, false);
}

#[test]
fn test_extcodesize_opcode_warm_acc() {
    extcodesize_case(true, true);
}

#[test]
fn dispatch_routes_by_opcode() {
    let mut state = CircuitInputState::new(1, call(2), vec![1, 2], StateDb::new());
    let step = gen_associated_ops(&mut state, &trace(OpcodeId::CALLDATALOAD, vec![0, 0], 0, after_write(&[], 32, 0, &window(&[1, 2], 0)))).unwrap();
    assert_eq!(step.bus_mapping_instance.len(), 36);
    assert_eq!(gen_associated_ops(&mut state, &trace(OpcodeId::ADDMOD, vec![], 0, vec![])).unwrap_err(), Error::UnsupportedOpcode);
    assert_eq!(gen_associated_ops(&mut state, &[]).unwrap_err(), Error::MalformedTrace);
}

#[test]
fn counters_are_consecutive_across_steps() {
    let mut state = sstore_state(0x6f);
    set_words(&mut state, 0, 1);
    let _ = { let steps = sstore_steps(&state, 0); gen_associated_ops(&mut state, &steps) }.unwrap();
    let digest = ethers_core::utils::keccak256(&state.memory);
    let after = after_write(&state.memory, 0xa0, 0x80, &digest);
    gen_associated_ops(&mut state, &trace(OpcodeId::SHA3, vec![0, 64, 0x80], 0, after)).unwrap();
    let after = after_write(&state.memory, 0x104, 0x100, &[0, 0, 0, 0]);
    gen_associated_ops(&mut state, &trace(OpcodeId::EXTCODESIZE, vec![7, 0x100], 0, after)).unwrap();
    assert_eq!(state.container.len(), 74 + 3 + 64 + 32 + 11);
    assert_eq!(state.rw_counter(), state.container.len() as u64 + 1);
    assert_counters_consecutive(&state);
    for (t, log) in [
        (Target::Memory, &state.container.memory),
        (Target::Stack, &state.container.stack),
        (Target::Storage, &state.container.storage),
        (Target::CallContext, &state.container.call_context),
    ] {
        for p in log {
            assert_eq!(state.container.ops[*p].op.target(), t);
        }
    }
}

#[test]
fn reverted_call_undoes_its_writes() {
    let mut state = sstore_state(0x6f);
    let inner = Call {
        call_id: 2,
        caller_id: 1,
        is_root: false,
        is_static: false,
        is_persistent: false,
        rw_counter_end_of_reversion: 75,
        reversible_write_counter: 0,
        address: CONTRACT,
        call_data_offset: 0,
        call_data_length: 0,
    };
    state.begin_call(inner, vec![], 1);
    set_words(&mut state, 0, 0);
    let _ = { let steps = sstore_steps(&state, 0x12c0); Sstore::gen_associated_ops(&mut state, &steps) }.unwrap();
    assert_eq!(state.sdb.get_storage(CONTRACT, &word(0)), word(0));
    assert_eq!(state.call.reversible_write_counter, 3);
    let undos = state.end_call().unwrap();
    assert_eq!(undos.len(), 3);
    let ops: Vec<&Operation> = undos.iter().map(|r| state.container.get(*r)).collect();
    assert_eq!((ops[0].rwc, ops[1].rwc, ops[2].rwc), (75, 76, 77));
    match (&ops[0].op, &ops[1].op, &ops[2].op) {
        (Op::TxRefund(r), Op::TxAccessListAccountStorage(a), Op::Storage(s)) => {
            assert_eq!((r.value, r.value_prev), (0, 0x12c0));
            assert_eq!((a.is_warm, a.is_warm_prev), (false, true));
            assert_eq!(s.value, word(0x6f));
            assert_eq!(s.value_prev, word(0));
        }
        _ => panic!("expected the refund, access-list and storage undos, latest first"),
    }
    assert_eq!(state.sdb.get_storage(CONTRACT, &word(0)), word(0x6f));
    assert_eq!(state.sdb.refund, 0);
    assert!(state.sdb.check_account_storage_in_access_list(CONTRACT, &word(0)));
    assert_eq!(state.call.call_id, 1);
    assert_counters_consecutive(&state);
}

#[test]
fn reversion_counter_mismatch_is_internal_error() {
    let mut state = sstore_state(0x6f);
    let inner = Call {
        call_id: 2,
        caller_id: 1,
        is_root: false,
        is_static: false,
        is_persistent: false,
        rw_counter_end_of_reversion: 10,
        reversible_write_counter: 0,
        address: CONTRACT,
        call_data_offset: 0,
        call_data_length: 0,
    };
    state.begin_call(inner, vec![], 1);
    assert_eq!(state.end_call().unwrap_err(), Error::InternalInvariantViolation);
}

#[test]
fn persistent_call_end_creates_nothing() {
    let mut state = sstore_state(0x6f);
    let mut inner = call(0);
    inner.call_id = 2;
    inner.is_root = false;
    state.begin_call(inner, vec![], 1);
    set_words(&mut state, 0, 0);
    let _ = { let steps = sstore_steps(&state, 0x12c0); Sstore::gen_associated_ops(&mut state, &steps) }.unwrap();
    let n = state.container.len();
    assert!(state.end_call().unwrap().is_empty());
    assert_eq!(state.container.len(), n);
    assert_eq!(state.sdb.get_storage(CONTRACT, &word(0)), word(0));
}
