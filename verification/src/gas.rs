//! The canonical AI precompile gas schedule.
//!
//! Gas is a pure function of the input length and is computable before the
//! precompile runs, so every EVM backend charges the same amount for the same
//! call, on success and on revert alike.

use vstd::prelude::*;

use crate::address::{same_address, ADDR_AI_EMBEDDING, ADDR_AI_INFERENCE};

verus! {

/// Calldata header for the AI precompiles: `selector(4) + model id(32)`.
pub const AI_HEADER_LEN: usize = 36;

/// Base gas of an inference call.
pub const GAS_BASE_INFER: u64 = 120_000;

/// Gas per prompt byte of an inference call.
pub const GAS_PER_PROMPT_BYTE: u64 = 30;

/// Base gas of an embedding call.
pub const GAS_BASE_EMBED: u64 = 50_000;

/// Gas per text byte of an embedding call.
pub const GAS_PER_TEXT_BYTE: u64 = 16;

/// Number of payload bytes that follow the AI header in an input of
/// `input_len` bytes (zero when the input is shorter than the header).
pub open spec fn payload_len(input_len: int) -> int {
    if input_len > AI_HEADER_LEN as int {
        input_len - AI_HEADER_LEN as int
    } else {
        0
    }
}

/// `base + per_byte * payload`, saturated at `u64::MAX`.
pub open spec fn saturated_schedule(base: int, per_byte: int, payload: int) -> int {
    if base + per_byte * payload <= u64::MAX as int {
        base + per_byte * payload
    } else {
        u64::MAX as int
    }
}

/// Inference gas for an input of `input_len` bytes.
pub open spec fn spec_inference_gas(input_len: int) -> int {
    saturated_schedule(GAS_BASE_INFER as int, GAS_PER_PROMPT_BYTE as int, payload_len(input_len))
}

/// Embedding gas for an input of `input_len` bytes.
pub open spec fn spec_embedding_gas(input_len: int) -> int {
    saturated_schedule(GAS_BASE_EMBED as int, GAS_PER_TEXT_BYTE as int, payload_len(input_len))
}

/// `base + per_byte * payload` with a checked multiply and a saturating add;
/// an overflowing multiply saturates too.
fn schedule(base: u64, per_byte: u64, input_len: usize) -> (gas: u64)
    requires
        per_byte > 0,
    ensures
        gas == saturated_schedule(base as int, per_byte as int, payload_len(input_len as int)),
{
    let payload = input_len.saturating_sub(AI_HEADER_LEN) as u64;
    match per_byte.checked_mul(payload) {
        Some(add) => base.saturating_add(add),
        None => {
            assert(per_byte * payload >= payload) by (nonlinear_arith)
                requires
                    per_byte > 0,
                    payload >= 0,
            ;
            u64::MAX
        },
    }
}

/// Input-based inference gas: `GAS_BASE_INFER + GAS_PER_PROMPT_BYTE * prompt`
/// where `prompt` is the input length past the 36-byte header (zero below it),
/// saturated at `u64::MAX`.
pub fn inference_gas(input_len: usize) -> (gas: u64)
    ensures
        gas == spec_inference_gas(input_len as int),
{
    schedule(GAS_BASE_INFER, GAS_PER_PROMPT_BYTE, input_len)
}

/// Input-based embedding gas: `GAS_BASE_EMBED + GAS_PER_TEXT_BYTE * text`
/// where `text` is the input length past the 36-byte header (zero below it),
/// saturated at `u64::MAX`.
pub fn embedding_gas(input_len: usize) -> (gas: u64)
    ensures
        gas == spec_embedding_gas(input_len as int),
{
    schedule(GAS_BASE_EMBED, GAS_PER_TEXT_BYTE, input_len)
}

/// The canonical pre-execution gas of a call to `addr` with an input of
/// `input_len` bytes: inference gas at the inference address, embedding gas
/// at the embedding address, and nothing for any other address.
pub open spec fn spec_required_gas(addr: [u8; 20], input_len: int) -> Option<u64> {
    if addr == ADDR_AI_INFERENCE {
        Some(spec_inference_gas(input_len) as u64)
    } else if addr == ADDR_AI_EMBEDDING {
        Some(spec_embedding_gas(input_len) as u64)
    } else {
        None
    }
}

/// Canonical pre-execution gas for an AI precompile: a pure function of the
/// call address and the input length, charged identically on success and on
/// revert. `None` for a non-AI address (the caller falls back to the stock
/// precompile gas model).
pub fn required_gas(addr: &[u8; 20], input_len: usize) -> (r: Option<u64>)
    ensures
        r == spec_required_gas(*addr, input_len as int),
{
    if same_address(addr, &ADDR_AI_INFERENCE) {
        Some(inference_gas(input_len))
    } else if same_address(addr, &ADDR_AI_EMBEDDING) {
        Some(embedding_gas(input_len))
    } else {
        None
    }
}

} // verus!
