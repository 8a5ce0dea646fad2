//! Witness generation for a zero-knowledge virtual machine: the bus-mapping
//! engine that turns traced execution steps into the ordered read/write
//! operations a proving circuit checks.

pub mod builder;
pub mod calldataload;
pub mod consts;
pub mod execution;
pub mod extcodesize;
pub mod handler;
pub mod opcodes;
pub mod operation;
pub mod reversion;
pub mod round_trip;
pub mod sha3;
pub mod sstore;
pub mod state;
pub mod witness;
pub mod word;

