//! Constants of the WASM binary format: section ids, types, and the
//! instruction opcodes with the immediates they take.
use vstd::prelude::*;

verus! {

/// Where the version follows the magic prefix of a WASM binary.
pub const WASM_VERSION_PREFIX_BASE_INDEX: usize = 4;

/// The length of the version of a WASM binary.
pub const WASM_VERSION_PREFIX_LENGTH: usize = 4;

/// Where the sections of a WASM binary start.
pub const WASM_SECTIONS_START_INDEX: usize = WASM_VERSION_PREFIX_BASE_INDEX + WASM_VERSION_PREFIX_LENGTH;

/// The byte that ends a block.
pub const WASM_BLOCK_END: i32 = 0xB;

/// The block type of a block without a result.
pub const WASM_BLOCKTYPE_DELIMITER: i32 = 0x40;

/// The section id used where none is given.
pub const SECTION_ID_DEFAULT: i32 = 0;

/// The ids of the sections of a WASM binary.
#[derive(Clone, Copy, Debug, PartialEq, Eq, Structural)]
pub enum WasmSectionId {
    Custom,
    Type,
    Import,
    Function,
    Table,
    Memory,
    Global,
    Export,
    Start,
    Element,
    Code,
    Data,
    DataCount,
}

impl WasmSectionId {
    /// The byte that encodes it.
    pub open spec fn code_spec(self) -> u8 {
        match self {
            WasmSectionId::Custom => 0x0,
            WasmSectionId::Type => 0x1,
            WasmSectionId::Import => 0x2,
            WasmSectionId::Function => 0x3,
            WasmSectionId::Table => 0x4,
            WasmSectionId::Memory => 0x5,
            WasmSectionId::Global => 0x6,
            WasmSectionId::Export => 0x7,
            WasmSectionId::Start => 0x8,
            WasmSectionId::Element => 0x9,
            WasmSectionId::Code => 0xa,
            WasmSectionId::Data => 0xb,
            WasmSectionId::DataCount => 0xc,
        }
    }

    /// The byte that encodes it.
    pub fn code(self) -> (r: u8)
        ensures
            r == self.code_spec(),
    {
        match self {
            WasmSectionId::Custom => 0x0,
            WasmSectionId::Type => 0x1,
            WasmSectionId::Import => 0x2,
            WasmSectionId::Function => 0x3,
            WasmSectionId::Table => 0x4,
            WasmSectionId::Memory => 0x5,
            WasmSectionId::Global => 0x6,
            WasmSectionId::Export => 0x7,
            WasmSectionId::Start => 0x8,
            WasmSectionId::Element => 0x9,
            WasmSectionId::Code => 0xa,
            WasmSectionId::Data => 0xb,
            WasmSectionId::DataCount => 0xc,
        }
    }
}

/// The number types of WASM.
#[derive(Clone, Copy, Debug, PartialEq, Eq, Structural)]
pub enum NumType {
    I32,
    I64,
    F32,
    F64,
}

impl NumType {
    /// The byte that encodes it.
    pub open spec fn code_spec(self) -> u8 {
        match self {
            NumType::I32 => 0x7f,
            NumType::I64 => 0x7e,
            NumType::F32 => 0x7d,
            NumType::F64 => 0x7c,
        }
    }

    /// The byte that encodes it.
    pub fn code(self) -> (r: u8)
        ensures
            r == self.code_spec(),
    {
        match self {
            NumType::I32 => 0x7f,
            NumType::I64 => 0x7e,
            NumType::F32 => 0x7d,
            NumType::F64 => 0x7c,
        }
    }
}

/// The two forms of WASM limits.
#[derive(Clone, Copy, Debug, PartialEq, Eq, Structural)]
pub enum LimitsType {
    MinOnly,
    MinMax,
}

impl LimitsType {
    /// The byte that encodes it.
    pub open spec fn code_spec(self) -> u8 {
        match self {
            LimitsType::MinOnly => 0x0,
            LimitsType::MinMax => 0x1,
        }
    }

    /// The byte that encodes it.
    pub fn code(self) -> (r: u8)
        ensures
            r == self.code_spec(),
    {
        match self {
            LimitsType::MinOnly => 0x0,
            LimitsType::MinMax => 0x1,
        }
    }
}

/// The forms of a WASM data segment.
#[derive(Clone, Copy, Debug, PartialEq, Eq, Structural)]
pub enum MemSegmentType {
    ActiveZero,
    Passive,
    ActiveVariadic,
}

impl MemSegmentType {
    /// The byte that encodes it.
    pub open spec fn code_spec(self) -> u8 {
        match self {
            MemSegmentType::ActiveZero => 0x0,
            MemSegmentType::Passive => 0x1,
            MemSegmentType::ActiveVariadic => 0x2,
        }
    }

    /// The byte that encodes it.
    pub fn code(self) -> (r: u8)
        ensures
            r == self.code_spec(),
    {
        match self {
            MemSegmentType::ActiveZero => 0x0,
            MemSegmentType::Passive => 0x1,
            MemSegmentType::ActiveVariadic => 0x2,
        }
    }
}

/// The numeric instructions of WASM.
#[derive(Clone, Copy, Debug, PartialEq, Eq, PartialOrd, Ord, Structural)]
pub enum NumericInstruction {
    I32Const,
    I64Const,
    F32Const,
    F64Const,
    I32Eqz,
    I32Eq,
    I32Ne,
    I32LtS,
    I32LtU,
    I32GtS,
    I32GtU,
    I32LeS,
    I32LeU,
    I32GeS,
    I32GeU,
    I64Eqz,
    I64Eq,
    I64Ne,
    I64LtS,
    I64LtU,
    I64GtS,
    I64GtU,
    I64LeS,
    I64LeU,
    I64GeS,
    I64GeU,
    F32Eq,
    F32Ne,
    F32Lt,
    F32Gt,
    F32Le,
    F32Ge,
    F64Eq,
    F64Ne,
    F64Lt,
    F64Gt,
    F64Le,
    F64Ge,
    I32Clz,
    I32Ctz,
    I32Popcnt,
    I32Add,
    I32Sub,
    I32Mul,
    I32DivS,
    I32DivU,
    I32RemS,
    I32RemU,
    I32And,
    I32Or,
    I32Xor,
    I32Shl,
    I32ShrS,
    I32ShrU,
    I32Rotl,
    I32Rotr,
    I64Clz,
    I64Ctz,
    I64Popcnt,
    I64Add,
    I64Sub,
    I64Mul,
    I64DivS,
    I64DivU,
    I64RemS,
    I64RemU,
    I64And,
    I64Or,
    I64Xor,
    I64Shl,
    I64ShrS,
    I64ShrU,
    I64Rotl,
    I64Rotr,
    F32Abs,
    F32Neg,
    F32Ceil,
    F32Floor,
    F32Trunc,
    F32Nearest,
    F32Sqrt,
    F32Add,
    F32Sub,
    F32Mul,
    F32Div,
    F32Min,
    F32Max,
    F32Copysign,
    F64Abs,
    F64Neg,
    F64Ceil,
    F64Floor,
    F64Trunc,
    F64Nearest,
    F64Sqrt,
    F64Add,
    F64Sub,
    F64Mul,
    F64Div,
    F64Min,
    F64Max,
    F64Copysign,
    I32WrapI64,
    I32TruncSF32,
    I32TruncUF32,
    I32TruncSF64,
    I32TruncUF64,
    I64ExtendSI32,
    I64ExtendUI32,
    I64TruncSF32,
    I64TruncUF32,
    I64TruncSF64,
    I64TruncUF64,
    F32ConvertSI32,
    F32ConvertUI32,
    F32ConvertSI64,
    F32ConvertUI64,
    F32DemoteF64,
    F64ConvertSI32,
    F64ConvertUI32,
    F64ConvertSI64,
    F64ConvertUI64,
    F64PromoteF32,
    I32ReinterpretF32,
    I64ReinterpretF64,
    F32ReinterpretI32,
    F64ReinterpretI64,
    I32extend8S,
    I32extend16S,
    I64extend8S,
    I64extend16S,
    I64extend32S,
}

impl NumericInstruction {
    /// The byte that encodes it.
    pub open spec fn code_spec(self) -> u8 {
        match self {
            NumericInstruction::I32Const => 0x41,
            NumericInstruction::I64Const => 0x42,
            NumericInstruction::F32Const => 0x43,
            NumericInstruction::F64Const => 0x44,
            NumericInstruction::I32Eqz => 0x45,
            NumericInstruction::I32Eq => 0x46,
            NumericInstruction::I32Ne => 0x47,
            NumericInstruction::I32LtS => 0x48,
            NumericInstruction::I32LtU => 0x49,
            NumericInstruction::I32GtS => 0x4a,
            NumericInstruction::I32GtU => 0x4b,
            NumericInstruction::I32LeS => 0x4c,
            NumericInstruction::I32LeU => 0x4d,
            NumericInstruction::I32GeS => 0x4e,
            NumericInstruction::I32GeU => 0x4f,
            NumericInstruction::I64Eqz => 0x50,
            NumericInstruction::I64Eq => 0x51,
            NumericInstruction::I64Ne => 0x52,
            NumericInstruction::I64LtS => 0x53,
            NumericInstruction::I64LtU => 0x54,
            NumericInstruction::I64GtS => 0x55,
            NumericInstruction::I64GtU => 0x56,
            NumericInstruction::I64LeS => 0x57,
            NumericInstruction::I64LeU => 0x58,
            NumericInstruction::I64GeS => 0x59,
            NumericInstruction::I64GeU => 0x5a,
            NumericInstruction::F32Eq => 0x5b,
            NumericInstruction::F32Ne => 0x5c,
            NumericInstruction::F32Lt => 0x5d,
            NumericInstruction::F32Gt => 0x5e,
            NumericInstruction::F32Le => 0x5f,
            NumericInstruction::F32Ge => 0x60,
            NumericInstruction::F64Eq => 0x61,
            NumericInstruction::F64Ne => 0x62,
            NumericInstruction::F64Lt => 0x63,
            NumericInstruction::F64Gt => 0x64,
            NumericInstruction::F64Le => 0x65,
            NumericInstruction::F64Ge => 0x66,
            NumericInstruction::I32Clz => 0x67,
            NumericInstruction::I32Ctz => 0x68,
            NumericInstruction::I32Popcnt => 0x69,
            NumericInstruction::I32Add => 0x6a,
            NumericInstruction::I32Sub => 0x6b,
            NumericInstruction::I32Mul => 0x6c,
            NumericInstruction::I32DivS => 0x6d,
            NumericInstruction::I32DivU => 0x6e,
            NumericInstruction::I32RemS => 0x6f,
            NumericInstruction::I32RemU => 0x70,
            NumericInstruction::I32And => 0x71,
            NumericInstruction::I32Or => 0x72,
            NumericInstruction::I32Xor => 0x73,
            NumericInstruction::I32Shl => 0x74,
            NumericInstruction::I32ShrS => 0x75,
            NumericInstruction::I32ShrU => 0x76,
            NumericInstruction::I32Rotl => 0x77,
            NumericInstruction::I32Rotr => 0x78,
            NumericInstruction::I64Clz => 0x79,
            NumericInstruction::I64Ctz => 0x7a,
            NumericInstruction::I64Popcnt => 0x7b,
            NumericInstruction::I64Add => 0x7c,
            NumericInstruction::I64Sub => 0x7d,
            NumericInstruction::I64Mul => 0x7e,
            NumericInstruction::I64DivS => 0x7f,
            NumericInstruction::I64DivU => 0x80,
            NumericInstruction::I64RemS => 0x81,
            NumericInstruction::I64RemU => 0x82,
            NumericInstruction::I64And => 0x83,
            NumericInstruction::I64Or => 0x84,
            NumericInstruction::I64Xor => 0x85,
            NumericInstruction::I64Shl => 0x86,
            NumericInstruction::I64ShrS => 0x87,
            NumericInstruction::I64ShrU => 0x88,
            NumericInstruction::I64Rotl => 0x89,
            NumericInstruction::I64Rotr => 0x8a,
            NumericInstruction::F32Abs => 0x8b,
            NumericInstruction::F32Neg => 0x8c,
            NumericInstruction::F32Ceil => 0x8d,
            NumericInstruction::F32Floor => 0x8e,
            NumericInstruction::F32Trunc => 0x8f,
            NumericInstruction::F32Nearest => 0x90,
            NumericInstruction::F32Sqrt => 0x91,
            NumericInstruction::F32Add => 0x92,
            NumericInstruction::F32Sub => 0x93,
            NumericInstruction::F32Mul => 0x94,
            NumericInstruction::F32Div => 0x95,
            NumericInstruction::F32Min => 0x96,
            NumericInstruction::F32Max => 0x97,
            NumericInstruction::F32Copysign => 0x98,
            NumericInstruction::F64Abs => 0x99,
            NumericInstruction::F64Neg => 0x9a,
            NumericInstruction::F64Ceil => 0x9b,
            NumericInstruction::F64Floor => 0x9c,
            NumericInstruction::F64Trunc => 0x9d,
            NumericInstruction::F64Nearest => 0x9e,
            NumericInstruction::F64Sqrt => 0x9f,
            NumericInstruction::F64Add => 0xa0,
            NumericInstruction::F64Sub => 0xa1,
            NumericInstruction::F64Mul => 0xa2,
            NumericInstruction::F64Div => 0xa3,
            NumericInstruction::F64Min => 0xa4,
            NumericInstruction::F64Max => 0xa5,
            NumericInstruction::F64Copysign => 0xa6,
            NumericInstruction::I32WrapI64 => 0xa7,
            NumericInstruction::I32TruncSF32 => 0xa8,
            NumericInstruction::I32TruncUF32 => 0xa9,
            NumericInstruction::I32TruncSF64 => 0xaa,
            NumericInstruction::I32TruncUF64 => 0xab,
            NumericInstruction::I64ExtendSI32 => 0xac,
            NumericInstruction::I64ExtendUI32 => 0xad,
            NumericInstruction::I64TruncSF32 => 0xae,
            NumericInstruction::I64TruncUF32 => 0xaf,
            NumericInstruction::I64TruncSF64 => 0xb0,
            NumericInstruction::I64TruncUF64 => 0xb1,
            NumericInstruction::F32ConvertSI32 => 0xb2,
            NumericInstruction::F32ConvertUI32 => 0xb3,
            NumericInstruction::F32ConvertSI64 => 0xb4,
            NumericInstruction::F32ConvertUI64 => 0xb5,
            NumericInstruction::F32DemoteF64 => 0xb6,
            NumericInstruction::F64ConvertSI32 => 0xb7,
            NumericInstruction::F64ConvertUI32 => 0xb8,
            NumericInstruction::F64ConvertSI64 => 0xb9,
            NumericInstruction::F64ConvertUI64 => 0xba,
            NumericInstruction::F64PromoteF32 => 0xbb,
            NumericInstruction::I32ReinterpretF32 => 0xbc,
            NumericInstruction::I64ReinterpretF64 => 0xbd,
            NumericInstruction::F32ReinterpretI32 => 0xbe,
            NumericInstruction::F64ReinterpretI64 => 0xbf,
            NumericInstruction::I32extend8S => 0xc0,
            NumericInstruction::I32extend16S => 0xc1,
            NumericInstruction::I64extend8S => 0xc2,
            NumericInstruction::I64extend16S => 0xc3,
            NumericInstruction::I64extend32S => 0xc4,
        }
    }

    /// The byte that encodes it.
    pub fn code(self) -> (r: u8)
        ensures
            r == self.code_spec(),
    {
        match self {
            NumericInstruction::I32Const => 0x41,
            NumericInstruction::I64Const => 0x42,
            NumericInstruction::F32Const => 0x43,
            NumericInstruction::F64Const => 0x44,
            NumericInstruction::I32Eqz => 0x45,
            NumericInstruction::I32Eq => 0x46,
            NumericInstruction::I32Ne => 0x47,
            NumericInstruction::I32LtS => 0x48,
            NumericInstruction::I32LtU => 0x49,
            NumericInstruction::I32GtS => 0x4a,
            NumericInstruction::I32GtU => 0x4b,
            NumericInstruction::I32LeS => 0x4c,
            NumericInstruction::I32LeU => 0x4d,
            NumericInstruction::I32GeS => 0x4e,
            NumericInstruction::I32GeU => 0x4f,
            NumericInstruction::I64Eqz => 0x50,
            NumericInstruction::I64Eq => 0x51,
            NumericInstruction::I64Ne => 0x52,
            NumericInstruction::I64LtS => 0x53,
            NumericInstruction::I64LtU => 0x54,
            NumericInstruction::I64GtS => 0x55,
            NumericInstruction::I64GtU => 0x56,
            NumericInstruction::I64LeS => 0x57,
            NumericInstruction::I64LeU => 0x58,
            NumericInstruction::I64GeS => 0x59,
            NumericInstruction::I64GeU => 0x5a,
            NumericInstruction::F32Eq => 0x5b,
            NumericInstruction::F32Ne => 0x5c,
            NumericInstruction::F32Lt => 0x5d,
            NumericInstruction::F32Gt => 0x5e,
            NumericInstruction::F32Le => 0x5f,
            NumericInstruction::F32Ge => 0x60,
            NumericInstruction::F64Eq => 0x61,
            NumericInstruction::F64Ne => 0x62,
            NumericInstruction::F64Lt => 0x63,
            NumericInstruction::F64Gt => 0x64,
            NumericInstruction::F64Le => 0x65,
            NumericInstruction::F64Ge => 0x66,
            NumericInstruction::I32Clz => 0x67,
            NumericInstruction::I32Ctz => 0x68,
            NumericInstruction::I32Popcnt => 0x69,
            NumericInstruction::I32Add => 0x6a,
            NumericInstruction::I32Sub => 0x6b,
            NumericInstruction::I32Mul => 0x6c,
            NumericInstruction::I32DivS => 0x6d,
            NumericInstruction::I32DivU => 0x6e,
            NumericInstruction::I32RemS => 0x6f,
            NumericInstruction::I32RemU => 0x70,
            NumericInstruction::I32And => 0x71,
            NumericInstruction::I32Or => 0x72,
            NumericInstruction::I32Xor => 0x73,
            NumericInstruction::I32Shl => 0x74,
            NumericInstruction::I32ShrS => 0x75,
            NumericInstruction::I32ShrU => 0x76,
            NumericInstruction::I32Rotl => 0x77,
            NumericInstruction::I32Rotr => 0x78,
            NumericInstruction::I64Clz => 0x79,
            NumericInstruction::I64Ctz => 0x7a,
            NumericInstruction::I64Popcnt => 0x7b,
            NumericInstruction::I64Add => 0x7c,
            NumericInstruction::I64Sub => 0x7d,
            NumericInstruction::I64Mul => 0x7e,
            NumericInstruction::I64DivS => 0x7f,
            NumericInstruction::I64DivU => 0x80,
            NumericInstruction::I64RemS => 0x81,
            NumericInstruction::I64RemU => 0x82,
            NumericInstruction::I64And => 0x83,
            NumericInstruction::I64Or => 0x84,
            NumericInstruction::I64Xor => 0x85,
            NumericInstruction::I64Shl => 0x86,
            NumericInstruction::I64ShrS => 0x87,
            NumericInstruction::I64ShrU => 0x88,
            NumericInstruction::I64Rotl => 0x89,
            NumericInstruction::I64Rotr => 0x8a,
            NumericInstruction::F32Abs => 0x8b,
            NumericInstruction::F32Neg => 0x8c,
            NumericInstruction::F32Ceil => 0x8d,
            NumericInstruction::F32Floor => 0x8e,
            NumericInstruction::F32Trunc => 0x8f,
            NumericInstruction::F32Nearest => 0x90,
            NumericInstruction::F32Sqrt => 0x91,
            NumericInstruction::F32Add => 0x92,
            NumericInstruction::F32Sub => 0x93,
            NumericInstruction::F32Mul => 0x94,
            NumericInstruction::F32Div => 0x95,
            NumericInstruction::F32Min => 0x96,
            NumericInstruction::F32Max => 0x97,
            NumericInstruction::F32Copysign => 0x98,
            NumericInstruction::F64Abs => 0x99,
            NumericInstruction::F64Neg => 0x9a,
            NumericInstruction::F64Ceil => 0x9b,
            NumericInstruction::F64Floor => 0x9c,
            NumericInstruction::F64Trunc => 0x9d,
            NumericInstruction::F64Nearest => 0x9e,
            NumericInstruction::F64Sqrt => 0x9f,
            NumericInstruction::F64Add => 0xa0,
            NumericInstruction::F64Sub => 0xa1,
            NumericInstruction::F64Mul => 0xa2,
            NumericInstruction::F64Div => 0xa3,
            NumericInstruction::F64Min => 0xa4,
            NumericInstruction::F64Max => 0xa5,
            NumericInstruction::F64Copysign => 0xa6,
            NumericInstruction::I32WrapI64 => 0xa7,
            NumericInstruction::I32TruncSF32 => 0xa8,
            NumericInstruction::I32TruncUF32 => 0xa9,
            NumericInstruction::I32TruncSF64 => 0xaa,
            NumericInstruction::I32TruncUF64 => 0xab,
            NumericInstruction::I64ExtendSI32 => 0xac,
            NumericInstruction::I64ExtendUI32 => 0xad,
            NumericInstruction::I64TruncSF32 => 0xae,
            NumericInstruction::I64TruncUF32 => 0xaf,
            NumericInstruction::I64TruncSF64 => 0xb0,
            NumericInstruction::I64TruncUF64 => 0xb1,
            NumericInstruction::F32ConvertSI32 => 0xb2,
            NumericInstruction::F32ConvertUI32 => 0xb3,
            NumericInstruction::F32ConvertSI64 => 0xb4,
            NumericInstruction::F32ConvertUI64 => 0xb5,
            NumericInstruction::F32DemoteF64 => 0xb6,
            NumericInstruction::F64ConvertSI32 => 0xb7,
            NumericInstruction::F64ConvertUI32 => 0xb8,
            NumericInstruction::F64ConvertSI64 => 0xb9,
            NumericInstruction::F64ConvertUI64 => 0xba,
            NumericInstruction::F64PromoteF32 => 0xbb,
            NumericInstruction::I32ReinterpretF32 => 0xbc,
            NumericInstruction::I64ReinterpretF64 => 0xbd,
            NumericInstruction::F32ReinterpretI32 => 0xbe,
            NumericInstruction::F64ReinterpretI64 => 0xbf,
            NumericInstruction::I32extend8S => 0xc0,
            NumericInstruction::I32extend16S => 0xc1,
            NumericInstruction::I64extend8S => 0xc2,
            NumericInstruction::I64extend16S => 0xc3,
            NumericInstruction::I64extend32S => 0xc4,
        }
    }
}

/// The variable instructions of WASM.
#[derive(Clone, Copy, Debug, PartialEq, Eq, PartialOrd, Ord, Structural)]
pub enum VariableInstruction {
    LocalGet,
    LocalSet,
    LocalTee,
    GlobalGet,
    GlobalSet,
}

impl VariableInstruction {
    /// The byte that encodes it.
    pub open spec fn code_spec(self) -> u8 {
        match self {
            VariableInstruction::LocalGet => 0x20,
            VariableInstruction::LocalSet => 0x21,
            VariableInstruction::LocalTee => 0x22,
            VariableInstruction::GlobalGet => 0x23,
            VariableInstruction::GlobalSet => 0x24,
        }
    }

    /// The byte that encodes it.
    pub fn code(self) -> (r: u8)
        ensures
            r == self.code_spec(),
    {
        match self {
            VariableInstruction::LocalGet => 0x20,
            VariableInstruction::LocalSet => 0x21,
            VariableInstruction::LocalTee => 0x22,
            VariableInstruction::GlobalGet => 0x23,
            VariableInstruction::GlobalSet => 0x24,
        }
    }
}

/// The control instructions of WASM.
#[derive(Clone, Copy, Debug, PartialEq, Eq, PartialOrd, Ord, Structural)]
pub enum ControlInstruction {
    Unreachable,
    Nop,
    Block,
    Loop,
    If,
    Else,
    Br,
    BrIf,
    BrTable,
    Return,
    Call,
    CallIndirect,
}

impl ControlInstruction {
    /// The byte that encodes it.
    pub open spec fn code_spec(self) -> u8 {
        match self {
            ControlInstruction::Unreachable => 0x0,
            ControlInstruction::Nop => 0x1,
            ControlInstruction::Block => 0x2,
            ControlInstruction::Loop => 0x3,
            ControlInstruction::If => 0x4,
            ControlInstruction::Else => 0x5,
            ControlInstruction::Br => 0xc,
            ControlInstruction::BrIf => 0xd,
            ControlInstruction::BrTable => 0xe,
            ControlInstruction::Return => 0xf,
            ControlInstruction::Call => 0x10,
            ControlInstruction::CallIndirect => 0x11,
        }
    }

    /// The byte that encodes it.
    pub fn code(self) -> (r: u8)
        ensures
            r == self.code_spec(),
    {
        match self {
            ControlInstruction::Unreachable => 0x0,
            ControlInstruction::Nop => 0x1,
            ControlInstruction::Block => 0x2,
            ControlInstruction::Loop => 0x3,
            ControlInstruction::If => 0x4,
            ControlInstruction::Else => 0x5,
            ControlInstruction::Br => 0xc,
            ControlInstruction::BrIf => 0xd,
            ControlInstruction::BrTable => 0xe,
            ControlInstruction::Return => 0xf,
            ControlInstruction::Call => 0x10,
            ControlInstruction::CallIndirect => 0x11,
        }
    }
}

/// The largest section id.
pub const WASM_SECTION_ID_MAX: usize = 12;

impl NumericInstruction {
    /// The numeric instructions that take an LEB128 immediate.
    pub open spec fn with_leb_param(self) -> bool {
        self == NumericInstruction::I32Const || self == NumericInstruction::I64Const
    }

    /// The numeric instructions without immediates that are decoded.
    pub open spec fn without_params(self) -> bool {
        self == NumericInstruction::I32Add || self == NumericInstruction::I64Add
    }

    /// The decoded numeric instruction with this opcode.
    pub fn try_from(v: i32) -> (r: Result<NumericInstruction, ()>)
        ensures
            r is Ok ==> r->Ok_0.code_spec() as i32 == v && (r->Ok_0.with_leb_param() || r->Ok_0.without_params()),
            r is Err ==> forall|i: NumericInstruction| (i.with_leb_param() || i.without_params()) ==> i.code_spec() as i32 != v,
    {
        if v == NumericInstruction::I32Const.code() as i32 {
            return Ok(NumericInstruction::I32Const);
        }
        if v == NumericInstruction::I64Const.code() as i32 {
            return Ok(NumericInstruction::I64Const);
        }
        if v == NumericInstruction::I32Add.code() as i32 {
            return Ok(NumericInstruction::I32Add);
        }
        if v == NumericInstruction::I64Add.code() as i32 {
            return Ok(NumericInstruction::I64Add);
        }
        Err(())
    }
}

impl From<NumericInstruction> for usize {
    fn from(t: NumericInstruction) -> (r: usize) {
        t.code() as usize
    }
}

impl vstd::std_specs::convert::FromSpecImpl<NumericInstruction> for usize {
    open spec fn obeys_from_spec() -> bool {
        true
    }

    open spec fn from_spec(t: NumericInstruction) -> usize {
        t.code_spec() as usize
    }
}

impl VariableInstruction {
    /// The variable instructions, all of which take an LEB128 immediate.
    pub open spec fn with_leb_param(self) -> bool {
        self == VariableInstruction::LocalGet || self == VariableInstruction::LocalSet || self == VariableInstruction::LocalTee || self == VariableInstruction::GlobalGet || self == VariableInstruction::GlobalSet
    }

    /// The variable instruction with this opcode.
    pub fn try_from(v: i32) -> (r: Result<VariableInstruction, ()>)
        ensures
            r is Ok ==> r->Ok_0.code_spec() as i32 == v && (r->Ok_0.with_leb_param()),
            r is Err ==> forall|i: VariableInstruction| (i.with_leb_param()) ==> i.code_spec() as i32 != v,
    {
        if v == VariableInstruction::LocalGet.code() as i32 {
            return Ok(VariableInstruction::LocalGet);
        }
        if v == VariableInstruction::LocalSet.code() as i32 {
            return Ok(VariableInstruction::LocalSet);
        }
        if v == VariableInstruction::LocalTee.code() as i32 {
            return Ok(VariableInstruction::LocalTee);
        }
        if v == VariableInstruction::GlobalGet.code() as i32 {
            return Ok(VariableInstruction::GlobalGet);
        }
        if v == VariableInstruction::GlobalSet.code() as i32 {
            return Ok(VariableInstruction::GlobalSet);
        }
        Err(())
    }
}

impl From<VariableInstruction> for usize {
    fn from(t: VariableInstruction) -> (r: usize) {
        t.code() as usize
    }
}

impl vstd::std_specs::convert::FromSpecImpl<VariableInstruction> for usize {
    open spec fn obeys_from_spec() -> bool {
        true
    }

    open spec fn from_spec(t: VariableInstruction) -> usize {
        t.code_spec() as usize
    }
}

impl ControlInstruction {
    /// The control instructions that take an LEB128 immediate.
    pub open spec fn with_leb_param(self) -> bool {
        self == ControlInstruction::Br || self == ControlInstruction::BrIf
    }

    /// The control instructions without immediates that are decoded.
    pub open spec fn without_params(self) -> bool {
        self == ControlInstruction::Unreachable
    }

    /// The control instructions that open a block.
    pub open spec fn is_block(self) -> bool {
        self == ControlInstruction::Block || self == ControlInstruction::Loop
    }

    /// The decoded control instruction with this opcode.
    pub fn try_from(v: i32) -> (r: Result<ControlInstruction, ()>)
        ensures
            r is Ok ==> r->Ok_0.code_spec() as i32 == v && (r->Ok_0.with_leb_param() || r->Ok_0.without_params() || r->Ok_0.is_block()),
            r is Err ==> forall|i: ControlInstruction| (i.with_leb_param() || i.without_params() || i.is_block()) ==> i.code_spec() as i32 != v,
    {
        if v == ControlInstruction::Br.code() as i32 {
            return Ok(ControlInstruction::Br);
        }
        if v == ControlInstruction::BrIf.code() as i32 {
            return Ok(ControlInstruction::BrIf);
        }
        if v == ControlInstruction::Unreachable.code() as i32 {
            return Ok(ControlInstruction::Unreachable);
        }
        if v == ControlInstruction::Block.code() as i32 {
            return Ok(ControlInstruction::Block);
        }
        if v == ControlInstruction::Loop.code() as i32 {
            return Ok(ControlInstruction::Loop);
        }
        Err(())
    }
}

impl From<ControlInstruction> for usize {
    fn from(t: ControlInstruction) -> (r: usize) {
        t.code() as usize
    }
}

impl vstd::std_specs::convert::FromSpecImpl<ControlInstruction> for usize {
    open spec fn obeys_from_spec() -> bool {
        true
    }

    open spec fn from_spec(t: ControlInstruction) -> usize {
        t.code_spec() as usize
    }
}

} // verus!
