//! Verified core of the Hanzo L2 virtual machine: the precompile address map,
//! the canonical input-based gas schedule, calldata decoding for each
//! precompile, the registry that routes calls, the interpreter-side gas
//! settlement of AI precompile calls, the shared contract bytecode fixtures,
//! and the integer side of compute-job pricing.

pub mod address;
pub mod bytecode;
pub mod gas;
pub mod interpreter;
pub mod laws;
pub mod outcome;
pub mod precompiles;
pub mod pricing;
pub mod registry;
pub mod text;

