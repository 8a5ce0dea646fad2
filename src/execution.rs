//! Opcodes, execution states, and the map from a built step to the
//! execution state that the circuit assigns it.
use vstd::prelude::*;

verus! {

/// The opcodes whose steps this library knows.
#[allow(non_camel_case_types)]
#[derive(Clone, Copy, Debug, PartialEq, Eq, Structural)]
pub enum OpcodeId {
    I32Add,
    I64Add,
    I32Sub,
    I64Sub,
    I32Mul,
    I64Mul,
    I32DivS,
    I64DivS,
    I32DivU,
    I64DivU,
    I32RemS,
    I64RemS,
    I32RemU,
    I64RemU,
    I32Const,
    I64Const,
    Drop,
    I32Ctz,
    I64Ctz,
    I32Clz,
    I64Clz,
    I32Popcnt,
    I64Popcnt,
    GetGlobal,
    SetGlobal,
    GetLocal,
    SetLocal,
    TeeLocal,
    End,
    ADDMOD,
    ADDRESS,
    BALANCE,
    MUL,
    DIV,
    MOD,
    MULMOD,
    SDIV,
    SMOD,
    EQ,
    LT,
    GT,
    SLT,
    SGT,
    SIGNEXTEND,
    STOP,
    AND,
    XOR,
    OR,
    NOT,
    EXP,
    POP,
    BYTE,
    MLOAD,
    MSTORE,
    MSTORE8,
    JUMPDEST,
    JUMP,
    JUMPI,
    GASPRICE,
    PC,
    MSIZE,
    CALLER,
    CALLVALUE,
    EXTCODEHASH,
    EXTCODESIZE,
    BLOCKHASH,
    TIMESTAMP,
    NUMBER,
    GASLIMIT,
    COINBASE,
    DIFFICULTY,
    BASEFEE,
    GAS,
    SAR,
    SELFBALANCE,
    SHA3,
    SHL,
    SHR,
    SLOAD,
    SSTORE,
    CALLDATASIZE,
    CALLDATACOPY,
    CHAINID,
    ISZERO,
    CALL,
    CALLCODE,
    DELEGATECALL,
    STATICCALL,
    ORIGIN,
    CODECOPY,
    CALLDATALOAD,
    CODESIZE,
    RETURN,
    REVERT,
    RETURNDATASIZE,
    RETURNDATACOPY,
    EXTCODECOPY,
    CREATE,
    CREATE2,
    SELFDESTRUCT,
    LOG0,
    LOG1,
    LOG2,
    LOG3,
    LOG4,
}

/// The execution states of the circuit.
#[allow(non_camel_case_types)]
#[derive(Clone, Copy, Debug, PartialEq, Eq, Structural)]
pub enum ExecutionState {
    BeginTx,
    EndTx,
    EndBlock,
    WASM_BIN,
    WASM_CONST,
    WASM_DROP,
    WASM_UNARY,
    WASM_GLOBAL,
    WASM_LOCAL,
    WASM_END,
    ADDMOD,
    ADDRESS,
    BALANCE,
    MUL_DIV_MOD,
    MULMOD,
    SDIV_SMOD,
    CMP,
    SCMP,
    SIGNEXTEND,
    STOP,
    BITWISE,
    NOT,
    EXP,
    POP,
    BYTE,
    MEMORY,
    JUMPDEST,
    JUMP,
    JUMPI,
    GASPRICE,
    PC,
    MSIZE,
    CALLER,
    CALLVALUE,
    EXTCODEHASH,
    EXTCODESIZE,
    BLOCKHASH,
    BLOCKCTXU64,
    BLOCKCTXU160,
    BLOCKCTXU256,
    GAS,
    SAR,
    SELFBALANCE,
    SHA3,
    SHL_SHR,
    SLOAD,
    SSTORE,
    CALLDATASIZE,
    CALLDATACOPY,
    CHAINID,
    ISZERO,
    CALL_OP,
    ORIGIN,
    CODECOPY,
    CALLDATALOAD,
    CODESIZE,
    RETURN_REVERT,
    RETURNDATASIZE,
    RETURNDATACOPY,
    EXTCODECOPY,
    CREATE,
    CREATE2,
    SELFDESTRUCT,
    LOG,
    ErrorInvalidOpcode,
    ErrorStack,
    ErrorWriteProtection,
    ErrorDepth,
    ErrorInsufficientBalance,
    ErrorContractAddressCollision,
    ErrorInvalidCreationCode,
    ErrorInvalidJump,
    ErrorReturnDataOutOfBound,
    ErrorOutOfGasCodeStore,
    ErrorMaxCodeSizeExceeded,
    ErrorOutOfGasConstant,
    ErrorOutOfGasStaticMemoryExpansion,
    ErrorOutOfGasDynamicMemoryExpansion,
    ErrorOutOfGasMemoryCopy,
    ErrorOutOfGasAccountAccess,
    ErrorOutOfGasLOG,
    ErrorOutOfGasEXP,
    ErrorOutOfGasSHA3,
    ErrorOutOfGasEXTCODECOPY,
    ErrorOutOfGasCall,
    ErrorOutOfGasSloadSstore,
    ErrorOutOfGasCREATE2,
    ErrorOutOfGasSELFDESTRUCT,
}

/// Why an out-of-gas failure happened.
#[derive(Clone, Copy, Debug, PartialEq, Eq, Structural)]
pub enum OogError {
    Constant,
    StaticMemoryExpansion,
    DynamicMemoryExpansion,
    MemoryCopy,
    AccountAccess,
    CodeStore,
    Log,
    Exp,
    Sha3,
    ExtCodeCopy,
    Call,
    SloadSstore,
    Create2,
    SelfDestruct,
}

/// A failure of the traced execution at a step.
#[derive(Clone, Copy, Debug, PartialEq, Eq, Structural)]
pub enum ExecError {
    InvalidOpcode,
    StackOverflow,
    StackUnderflow,
    WriteProtection,
    Depth,
    InsufficientBalance,
    ContractAddressCollision,
    InvalidCreationCode,
    InvalidJump,
    ReturnDataOutOfBounds,
    CodeStoreOutOfGas,
    MaxCodeSizeExceeded,
    OutOfGas(OogError),
}

/// What a built step executes.
#[derive(Clone, Copy, Debug, PartialEq, Eq, Structural)]
pub enum ExecState {
    Op(OpcodeId),
    BeginTx,
    EndTx,
    EndBlock,
}

/// The execution state of a step that runs an opcode.
pub open spec fn opcode_execution_state_spec(op: OpcodeId) -> ExecutionState
{
    match op {
        OpcodeId::I32Add | OpcodeId::I64Add | OpcodeId::I32Sub | OpcodeId::I64Sub | OpcodeId::I32Mul | OpcodeId::I64Mul | OpcodeId::I32DivS | OpcodeId::I64DivS | OpcodeId::I32DivU | OpcodeId::I64DivU | OpcodeId::I32RemS | OpcodeId::I64RemS | OpcodeId::I32RemU | OpcodeId::I64RemU => ExecutionState::WASM_BIN,
        OpcodeId::I32Const | OpcodeId::I64Const => ExecutionState::WASM_CONST,
        OpcodeId::Drop => ExecutionState::WASM_DROP,
        OpcodeId::I32Ctz | OpcodeId::I64Ctz | OpcodeId::I32Clz | OpcodeId::I64Clz | OpcodeId::I32Popcnt | OpcodeId::I64Popcnt => ExecutionState::WASM_UNARY,
        OpcodeId::GetGlobal | OpcodeId::SetGlobal => ExecutionState::WASM_GLOBAL,
        OpcodeId::GetLocal | OpcodeId::SetLocal | OpcodeId::TeeLocal => ExecutionState::WASM_LOCAL,
        OpcodeId::End => ExecutionState::WASM_END,
        OpcodeId::ADDMOD => ExecutionState::ADDMOD,
        OpcodeId::ADDRESS => ExecutionState::ADDRESS,
        OpcodeId::BALANCE => ExecutionState::BALANCE,
        OpcodeId::MUL | OpcodeId::DIV | OpcodeId::MOD => ExecutionState::MUL_DIV_MOD,
        OpcodeId::MULMOD => ExecutionState::MULMOD,
        OpcodeId::SDIV | OpcodeId::SMOD => ExecutionState::SDIV_SMOD,
        OpcodeId::EQ | OpcodeId::LT | OpcodeId::GT => ExecutionState::CMP,
        OpcodeId::SLT | OpcodeId::SGT => ExecutionState::SCMP,
        OpcodeId::SIGNEXTEND => ExecutionState::SIGNEXTEND,
        OpcodeId::STOP => ExecutionState::STOP,
        OpcodeId::AND => ExecutionState::BITWISE,
        OpcodeId::XOR => ExecutionState::BITWISE,
        OpcodeId::OR => ExecutionState::BITWISE,
        OpcodeId::NOT => ExecutionState::NOT,
        OpcodeId::EXP => ExecutionState::EXP,
        OpcodeId::POP => ExecutionState::POP,
        OpcodeId::BYTE => ExecutionState::BYTE,
        OpcodeId::MLOAD => ExecutionState::MEMORY,
        OpcodeId::MSTORE => ExecutionState::MEMORY,
        OpcodeId::MSTORE8 => ExecutionState::MEMORY,
        OpcodeId::JUMPDEST => ExecutionState::JUMPDEST,
        OpcodeId::JUMP => ExecutionState::JUMP,
        OpcodeId::JUMPI => ExecutionState::JUMPI,
        OpcodeId::GASPRICE => ExecutionState::GASPRICE,
        OpcodeId::PC => ExecutionState::PC,
        OpcodeId::MSIZE => ExecutionState::MSIZE,
        OpcodeId::CALLER => ExecutionState::CALLER,
        OpcodeId::CALLVALUE => ExecutionState::CALLVALUE,
        OpcodeId::EXTCODEHASH => ExecutionState::EXTCODEHASH,
        OpcodeId::EXTCODESIZE => ExecutionState::EXTCODESIZE,
        OpcodeId::BLOCKHASH => ExecutionState::BLOCKHASH,
        OpcodeId::TIMESTAMP | OpcodeId::NUMBER | OpcodeId::GASLIMIT => ExecutionState::BLOCKCTXU64,
        OpcodeId::COINBASE => ExecutionState::BLOCKCTXU160,
        OpcodeId::DIFFICULTY | OpcodeId::BASEFEE => ExecutionState::BLOCKCTXU256,
        OpcodeId::GAS => ExecutionState::GAS,
        OpcodeId::SAR => ExecutionState::SAR,
        OpcodeId::SELFBALANCE => ExecutionState::SELFBALANCE,
        OpcodeId::SHA3 => ExecutionState::SHA3,
        OpcodeId::SHL | OpcodeId::SHR => ExecutionState::SHL_SHR,
        OpcodeId::SLOAD => ExecutionState::SLOAD,
        OpcodeId::SSTORE => ExecutionState::SSTORE,
        OpcodeId::CALLDATASIZE => ExecutionState::CALLDATASIZE,
        OpcodeId::CALLDATACOPY => ExecutionState::CALLDATACOPY,
        OpcodeId::CHAINID => ExecutionState::CHAINID,
        OpcodeId::ISZERO => ExecutionState::ISZERO,
        OpcodeId::CALL | OpcodeId::CALLCODE | OpcodeId::DELEGATECALL | OpcodeId::STATICCALL => ExecutionState::CALL_OP,
        OpcodeId::ORIGIN => ExecutionState::ORIGIN,
        OpcodeId::CODECOPY => ExecutionState::CODECOPY,
        OpcodeId::CALLDATALOAD => ExecutionState::CALLDATALOAD,
        OpcodeId::CODESIZE => ExecutionState::CODESIZE,
        OpcodeId::RETURN | OpcodeId::REVERT => ExecutionState::RETURN_REVERT,
        OpcodeId::RETURNDATASIZE => ExecutionState::RETURNDATASIZE,
        OpcodeId::RETURNDATACOPY => ExecutionState::RETURNDATACOPY,
        OpcodeId::EXTCODECOPY => ExecutionState::EXTCODECOPY,
        OpcodeId::CREATE => ExecutionState::CREATE,
        OpcodeId::CREATE2 => ExecutionState::CREATE2,
        OpcodeId::SELFDESTRUCT => ExecutionState::SELFDESTRUCT,
        OpcodeId::LOG0 | OpcodeId::LOG1 | OpcodeId::LOG2 | OpcodeId::LOG3 | OpcodeId::LOG4 => ExecutionState::LOG,
    }
}

/// The execution state of a step that runs an opcode.
pub fn opcode_execution_state(op: OpcodeId) -> (r: ExecutionState)
    ensures
        r == opcode_execution_state_spec(op),
{
    match op {
        OpcodeId::I32Add | OpcodeId::I64Add | OpcodeId::I32Sub | OpcodeId::I64Sub | OpcodeId::I32Mul | OpcodeId::I64Mul | OpcodeId::I32DivS | OpcodeId::I64DivS | OpcodeId::I32DivU | OpcodeId::I64DivU | OpcodeId::I32RemS | OpcodeId::I64RemS | OpcodeId::I32RemU | OpcodeId::I64RemU => ExecutionState::WASM_BIN,
        OpcodeId::I32Const | OpcodeId::I64Const => ExecutionState::WASM_CONST,
        OpcodeId::Drop => ExecutionState::WASM_DROP,
        OpcodeId::I32Ctz | OpcodeId::I64Ctz | OpcodeId::I32Clz | OpcodeId::I64Clz | OpcodeId::I32Popcnt | OpcodeId::I64Popcnt => ExecutionState::WASM_UNARY,
        OpcodeId::GetGlobal | OpcodeId::SetGlobal => ExecutionState::WASM_GLOBAL,
        OpcodeId::GetLocal | OpcodeId::SetLocal | OpcodeId::TeeLocal => ExecutionState::WASM_LOCAL,
        OpcodeId::End => ExecutionState::WASM_END,
        OpcodeId::ADDMOD => ExecutionState::ADDMOD,
        OpcodeId::ADDRESS => ExecutionState::ADDRESS,
        OpcodeId::BALANCE => ExecutionState::BALANCE,
        OpcodeId::MUL | OpcodeId::DIV | OpcodeId::MOD => ExecutionState::MUL_DIV_MOD,
        OpcodeId::MULMOD => ExecutionState::MULMOD,
        OpcodeId::SDIV | OpcodeId::SMOD => ExecutionState::SDIV_SMOD,
        OpcodeId::EQ | OpcodeId::LT | OpcodeId::GT => ExecutionState::CMP,
        OpcodeId::SLT | OpcodeId::SGT => ExecutionState::SCMP,
        OpcodeId::SIGNEXTEND => ExecutionState::SIGNEXTEND,
        OpcodeId::STOP => ExecutionState::STOP,
        OpcodeId::AND => ExecutionState::BITWISE,
        OpcodeId::XOR => ExecutionState::BITWISE,
        OpcodeId::OR => ExecutionState::BITWISE,
        OpcodeId::NOT => ExecutionState::NOT,
        OpcodeId::EXP => ExecutionState::EXP,
        OpcodeId::POP => ExecutionState::POP,
        OpcodeId::BYTE => ExecutionState::BYTE,
        OpcodeId::MLOAD => ExecutionState::MEMORY,
        OpcodeId::MSTORE => ExecutionState::MEMORY,
        OpcodeId::MSTORE8 => ExecutionState::MEMORY,
        OpcodeId::JUMPDEST => ExecutionState::JUMPDEST,
        OpcodeId::JUMP => ExecutionState::JUMP,
        OpcodeId::JUMPI => ExecutionState::JUMPI,
        OpcodeId::GASPRICE => ExecutionState::GASPRICE,
        OpcodeId::PC => ExecutionState::PC,
        OpcodeId::MSIZE => ExecutionState::MSIZE,
        OpcodeId::CALLER => ExecutionState::CALLER,
        OpcodeId::CALLVALUE => ExecutionState::CALLVALUE,
        OpcodeId::EXTCODEHASH => ExecutionState::EXTCODEHASH,
        OpcodeId::EXTCODESIZE => ExecutionState::EXTCODESIZE,
        OpcodeId::BLOCKHASH => ExecutionState::BLOCKHASH,
        OpcodeId::TIMESTAMP | OpcodeId::NUMBER | OpcodeId::GASLIMIT => ExecutionState::BLOCKCTXU64,
        OpcodeId::COINBASE => ExecutionState::BLOCKCTXU160,
        OpcodeId::DIFFICULTY | OpcodeId::BASEFEE => ExecutionState::BLOCKCTXU256,
        OpcodeId::GAS => ExecutionState::GAS,
        OpcodeId::SAR => ExecutionState::SAR,
        OpcodeId::SELFBALANCE => ExecutionState::SELFBALANCE,
        OpcodeId::SHA3 => ExecutionState::SHA3,
        OpcodeId::SHL | OpcodeId::SHR => ExecutionState::SHL_SHR,
        OpcodeId::SLOAD => ExecutionState::SLOAD,
        OpcodeId::SSTORE => ExecutionState::SSTORE,
        OpcodeId::CALLDATASIZE => ExecutionState::CALLDATASIZE,
        OpcodeId::CALLDATACOPY => ExecutionState::CALLDATACOPY,
        OpcodeId::CHAINID => ExecutionState::CHAINID,
        OpcodeId::ISZERO => ExecutionState::ISZERO,
        OpcodeId::CALL | OpcodeId::CALLCODE | OpcodeId::DELEGATECALL | OpcodeId::STATICCALL => ExecutionState::CALL_OP,
        OpcodeId::ORIGIN => ExecutionState::ORIGIN,
        OpcodeId::CODECOPY => ExecutionState::CODECOPY,
        OpcodeId::CALLDATALOAD => ExecutionState::CALLDATALOAD,
        OpcodeId::CODESIZE => ExecutionState::CODESIZE,
        OpcodeId::RETURN | OpcodeId::REVERT => ExecutionState::RETURN_REVERT,
        OpcodeId::RETURNDATASIZE => ExecutionState::RETURNDATASIZE,
        OpcodeId::RETURNDATACOPY => ExecutionState::RETURNDATACOPY,
        OpcodeId::EXTCODECOPY => ExecutionState::EXTCODECOPY,
        OpcodeId::CREATE => ExecutionState::CREATE,
        OpcodeId::CREATE2 => ExecutionState::CREATE2,
        OpcodeId::SELFDESTRUCT => ExecutionState::SELFDESTRUCT,
        OpcodeId::LOG0 | OpcodeId::LOG1 | OpcodeId::LOG2 | OpcodeId::LOG3 | OpcodeId::LOG4 => ExecutionState::LOG,
    }
}

/// The execution state of a step that failed.
pub open spec fn error_execution_state_spec(e: ExecError) -> ExecutionState
{
    match e {
        ExecError::InvalidOpcode => ExecutionState::ErrorInvalidOpcode,
        ExecError::StackOverflow | ExecError::StackUnderflow => ExecutionState::ErrorStack,
        ExecError::WriteProtection => ExecutionState::ErrorWriteProtection,
        ExecError::Depth => ExecutionState::ErrorDepth,
        ExecError::InsufficientBalance => ExecutionState::ErrorInsufficientBalance,
        ExecError::ContractAddressCollision => ExecutionState::ErrorContractAddressCollision,
        ExecError::InvalidCreationCode => ExecutionState::ErrorInvalidCreationCode,
        ExecError::InvalidJump => ExecutionState::ErrorInvalidJump,
        ExecError::ReturnDataOutOfBounds => ExecutionState::ErrorReturnDataOutOfBound,
        ExecError::CodeStoreOutOfGas => ExecutionState::ErrorOutOfGasCodeStore,
        ExecError::MaxCodeSizeExceeded => ExecutionState::ErrorMaxCodeSizeExceeded,
        ExecError::OutOfGas(OogError::Constant) => ExecutionState::ErrorOutOfGasConstant,
        ExecError::OutOfGas(OogError::StaticMemoryExpansion) => ExecutionState::ErrorOutOfGasStaticMemoryExpansion,
        ExecError::OutOfGas(OogError::DynamicMemoryExpansion) => ExecutionState::ErrorOutOfGasDynamicMemoryExpansion,
        ExecError::OutOfGas(OogError::MemoryCopy) => ExecutionState::ErrorOutOfGasMemoryCopy,
        ExecError::OutOfGas(OogError::AccountAccess) => ExecutionState::ErrorOutOfGasAccountAccess,
        ExecError::OutOfGas(OogError::CodeStore) => ExecutionState::ErrorOutOfGasCodeStore,
        ExecError::OutOfGas(OogError::Log) => ExecutionState::ErrorOutOfGasLOG,
        ExecError::OutOfGas(OogError::Exp) => ExecutionState::ErrorOutOfGasEXP,
        ExecError::OutOfGas(OogError::Sha3) => ExecutionState::ErrorOutOfGasSHA3,
        ExecError::OutOfGas(OogError::ExtCodeCopy) => ExecutionState::ErrorOutOfGasEXTCODECOPY,
        ExecError::OutOfGas(OogError::Call) => ExecutionState::ErrorOutOfGasCall,
        ExecError::OutOfGas(OogError::SloadSstore) => ExecutionState::ErrorOutOfGasSloadSstore,
        ExecError::OutOfGas(OogError::Create2) => ExecutionState::ErrorOutOfGasCREATE2,
        ExecError::OutOfGas(OogError::SelfDestruct) => ExecutionState::ErrorOutOfGasSELFDESTRUCT,
    }
}

/// The execution state of a step that failed.
pub fn error_execution_state(e: ExecError) -> (r: ExecutionState)
    ensures
        r == error_execution_state_spec(e),
{
    match e {
        ExecError::InvalidOpcode => ExecutionState::ErrorInvalidOpcode,
        ExecError::StackOverflow | ExecError::StackUnderflow => ExecutionState::ErrorStack,
        ExecError::WriteProtection => ExecutionState::ErrorWriteProtection,
        ExecError::Depth => ExecutionState::ErrorDepth,
        ExecError::InsufficientBalance => ExecutionState::ErrorInsufficientBalance,
        ExecError::ContractAddressCollision => ExecutionState::ErrorContractAddressCollision,
        ExecError::InvalidCreationCode => ExecutionState::ErrorInvalidCreationCode,
        ExecError::InvalidJump => ExecutionState::ErrorInvalidJump,
        ExecError::ReturnDataOutOfBounds => ExecutionState::ErrorReturnDataOutOfBound,
        ExecError::CodeStoreOutOfGas => ExecutionState::ErrorOutOfGasCodeStore,
        ExecError::MaxCodeSizeExceeded => ExecutionState::ErrorMaxCodeSizeExceeded,
        ExecError::OutOfGas(OogError::Constant) => ExecutionState::ErrorOutOfGasConstant,
        ExecError::OutOfGas(OogError::StaticMemoryExpansion) => ExecutionState::ErrorOutOfGasStaticMemoryExpansion,
        ExecError::OutOfGas(OogError::DynamicMemoryExpansion) => ExecutionState::ErrorOutOfGasDynamicMemoryExpansion,
        ExecError::OutOfGas(OogError::MemoryCopy) => ExecutionState::ErrorOutOfGasMemoryCopy,
        ExecError::OutOfGas(OogError::AccountAccess) => ExecutionState::ErrorOutOfGasAccountAccess,
        ExecError::OutOfGas(OogError::CodeStore) => ExecutionState::ErrorOutOfGasCodeStore,
        ExecError::OutOfGas(OogError::Log) => ExecutionState::ErrorOutOfGasLOG,
        ExecError::OutOfGas(OogError::Exp) => ExecutionState::ErrorOutOfGasEXP,
        ExecError::OutOfGas(OogError::Sha3) => ExecutionState::ErrorOutOfGasSHA3,
        ExecError::OutOfGas(OogError::ExtCodeCopy) => ExecutionState::ErrorOutOfGasEXTCODECOPY,
        ExecError::OutOfGas(OogError::Call) => ExecutionState::ErrorOutOfGasCall,
        ExecError::OutOfGas(OogError::SloadSstore) => ExecutionState::ErrorOutOfGasSloadSstore,
        ExecError::OutOfGas(OogError::Create2) => ExecutionState::ErrorOutOfGasCREATE2,
        ExecError::OutOfGas(OogError::SelfDestruct) => ExecutionState::ErrorOutOfGasSELFDESTRUCT,
    }
}

} // verus!
