//! The built-in Hanzo precompiles: calldata decoding, gas, and the shaping of
//! each result.
//!
//! A precompile whose answer needs outside work (a signature check, a Verkle
//! membership check, a model run) is split in two: `exec_*` decodes the
//! calldata into either a finished result or a request, and `finish_*` turns
//! the reply to that request into the result.

use vstd::prelude::*;
use vstd::slice::slice_to_vec;
use vstd::string::StringExecFns;

use crate::address::LUX_QUASAR_ADDR;
use crate::gas::{
    embedding_gas, inference_gas, spec_embedding_gas, spec_inference_gas, AI_HEADER_LEN,
};
use crate::outcome::{
    EngineFailure, FailureView, MlDsaRequest, ModelRequest, PrecompileOutcome, PrecompileResult,
    PrecompileStep, QuasarReply, QuasarRequest, StepView,
};
use crate::text::{decimal, decimal_text, model_name, spec_model_name};

verus! {

// ---------------------------------------------------------------------------
// Shared helpers
// ---------------------------------------------------------------------------

/// A revert carrying `reason`.
pub open spec fn revert_with(reason: Seq<char>) -> PrecompileOutcome {
    PrecompileOutcome::Revert { reason }
}

fn revert(reason: &str) -> (r: PrecompileResult)
    ensures
        r@ == revert_with(reason@),
{
    PrecompileResult::Revert { reason: String::from_str(reason) }
}

fn revert_concat(prefix: &str, detail: &str) -> (r: PrecompileResult)
    ensures
        r@ == revert_with(prefix@ + detail@),
{
    let mut reason = String::from_str(prefix);
    reason.append(detail);
    PrecompileResult::Revert { reason }
}

/// The big-endian `u32` stored at `at..at + 4` of `s`.
pub open spec fn be_u32(s: Seq<u8>, at: int) -> int {
    s[at] * 16777216 + s[at + 1] * 65536 + s[at + 2] * 256 + s[at + 3]
}

fn read_be_u32(s: &[u8], at: usize) -> (v: u32)
    requires
        at + 4 <= s@.len(),
    ensures
        v == be_u32(s@, at as int),
{
    (s[at] as u32) * 16777216 + (s[at + 1] as u32) * 65536 + (s[at + 2] as u32) * 256
        + (s[at + 3] as u32)
}

// ---------------------------------------------------------------------------
// pq_verify
// ---------------------------------------------------------------------------

/// Base gas of a signature check.
pub const PQ_VERIFY_BASE_GAS: u64 = 3_000;

/// Public-key length field of pq_verify calldata.
pub open spec fn pq_pk_len(input: Seq<u8>) -> int {
    be_u32(input, 0)
}

/// Signature length field of pq_verify calldata.
pub open spec fn pq_sig_len(input: Seq<u8>) -> int {
    be_u32(input, 4 + pq_pk_len(input))
}

/// Offset of the message in pq_verify calldata.
pub open spec fn pq_msg_offset(input: Seq<u8>) -> int {
    8 + pq_pk_len(input) + pq_sig_len(input)
}

/// How pq_verify decodes `input`:
///
/// | Offset    | Length  | Field                          |
/// |-----------|---------|--------------------------------|
/// | 0         | 4       | public key length (big-endian) |
/// | 4         | pk_len  | public key bytes               |
/// | 4+pk      | 4       | signature length (big-endian)  |
/// | 8+pk      | sig_len | signature bytes                |
/// | rest      | ..      | message bytes                  |
///
/// Gas is the base plus one sixteenth of the key and signature bytes.
pub open spec fn spec_pq_verify(input: Seq<u8>) -> StepView {
    if input.len() < 10 {
        StepView::Done(revert_with("input too short for pq_verify"@))
    } else if input.len() < 8 + pq_pk_len(input) {
        StepView::Done(revert_with("input truncated at public key"@))
    } else if input.len() < pq_msg_offset(input) {
        StepView::Done(revert_with("input truncated at signature"@))
    } else {
        StepView::VerifyMlDsa {
            public_key: input.subrange(4, 4 + pq_pk_len(input)),
            signature: input.subrange(8 + pq_pk_len(input), pq_msg_offset(input)),
            message: input.subrange(pq_msg_offset(input), input.len() as int),
            gas_used: (PQ_VERIFY_BASE_GAS + (pq_pk_len(input) + pq_sig_len(input)) / 16) as u64,
        }
    }
}

/// PQ signature verification (ML-DSA, FIPS 204): decode the calldata into the
/// key, signature and message to check, or revert on a short input.
pub fn exec_pq_verify(input: &[u8]) -> (step: PrecompileStep)
    ensures
        step@ == spec_pq_verify(input@),
{
    if input.len() < 10 {
        return PrecompileStep::Done(revert("input too short for pq_verify"));
    }
    let pk_len = read_be_u32(input, 0);
    if (input.len() as u64) < 8 + pk_len as u64 {
        return PrecompileStep::Done(revert("input truncated at public key"));
    }
    let pk_end = 4 + pk_len as usize;
    let sig_len = read_be_u32(input, pk_end);
    if (input.len() as u64) < 8 + pk_len as u64 + sig_len as u64 {
        return PrecompileStep::Done(revert("input truncated at signature"));
    }
    let msg_offset = pk_end + 4 + sig_len as usize;
    let public_key = slice_to_vec(&input[4..pk_end]);
    let signature = slice_to_vec(&input[pk_end + 4..msg_offset]);
    let message = slice_to_vec(&input[msg_offset..input.len()]);
    let gas_used = PQ_VERIFY_BASE_GAS.saturating_add((pk_len as u64 + sig_len as u64) / 16);
    PrecompileStep::VerifyMlDsa(MlDsaRequest { public_key, signature, message, gas_used })
}

/// The 32-byte big-endian word `0x..01` for `true` and `0x..00` for `false`.
pub open spec fn bool_word(b: bool) -> Seq<u8> {
    Seq::new(32, |i: int| if i == 31 && b { 1u8 } else { 0u8 })
}

/// The result of a pq_verify call charged `gas_used`, once the signature
/// check has answered `verdict`.
pub open spec fn spec_finish_pq_verify(
    gas_used: u64,
    verdict: Result<bool, Seq<char>>,
) -> PrecompileOutcome {
    match verdict {
        Ok(valid) => PrecompileOutcome::Success { output: bool_word(valid), gas_used },
        Err(e) => revert_with("ml-dsa verify error: "@ + e),
    }
}

/// Shape the result of pq_verify from the verifier's answer: a 32-byte word
/// ending in 1 for a valid signature and 0 for an invalid one, or a revert
/// carrying the verifier's error.
pub fn finish_pq_verify(
    request: &MlDsaRequest,
    verdict: Result<bool, String>,
) -> (r: PrecompileResult)
    ensures
        r@ == spec_finish_pq_verify(
            request.gas_used,
            match verdict {
                Ok(b) => Ok(b),
                Err(e) => Err(e@),
            },
        ),
{
    match verdict {
        Ok(valid) => {
            let mut output: Vec<u8> = Vec::new();
            let mut i: usize = 0;
            while i < 32
                invariant
                    0 <= i <= 32,
                    output@ =~= bool_word(valid).take(i as int),
                decreases 32 - i,
            {
                if i == 31 && valid {
                    output.push(1u8);
                } else {
                    output.push(0u8);
                }
                i = i + 1;
            }
            assert(output@ =~= bool_word(valid));
            PrecompileResult::Success { output, gas_used: request.gas_used }
        },
        Err(e) => revert_concat("ml-dsa verify error: ", e.as_str()),
    }
}

// ---------------------------------------------------------------------------
// quasar_query
// ---------------------------------------------------------------------------

/// Calldata length of a committee query: validator(20) ++ commitment(32) ++
/// proof(32) ++ threshold flag(1).
pub const QUASAR_INPUT_LEN: usize = 85;

/// Gas handed to the Lux Quasar precompile.
pub const QUASAR_GAS_SUPPLY: u64 = 1_000_000;

/// Routing fee charged on top of what the Lux precompile consumed.
pub const QUASAR_ROUTING_FEE: u64 = 1_000;

/// How quasar_query decodes `input`: the validator address is the query, and
/// the 65 bytes after it (`commitment ++ proof ++ flag`) are the Verkle
/// witness forwarded to the Lux Quasar precompile.
pub open spec fn spec_quasar_query(input: Seq<u8>) -> StepView {
    if input.len() < QUASAR_INPUT_LEN as int {
        StepView::Done(
            revert_with("quasar_query requires 85 bytes (addr ++ commitment ++ proof ++ flag)"@),
        )
    } else {
        StepView::QueryQuasar {
            validator: input.subrange(0, 20),
            commitment: input.subrange(20, 52),
            witness: input.subrange(20, 85),
            target: LUX_QUASAR_ADDR@,
            gas_supplied: QUASAR_GAS_SUPPLY,
        }
    }
}

/// Quasar committee membership query: decode the calldata into the Verkle
/// witness to forward to the canonical Lux Quasar precompile.
pub fn exec_quasar_query(input: &[u8]) -> (step: PrecompileStep)
    ensures
        step@ == spec_quasar_query(input@),
{
    if input.len() < QUASAR_INPUT_LEN {
        return PrecompileStep::Done(
            revert("quasar_query requires 85 bytes (addr ++ commitment ++ proof ++ flag)"),
        );
    }
    let validator = slice_to_vec(&input[0..20]);
    let commitment = slice_to_vec(&input[20..52]);
    let witness = slice_to_vec(&input[20..85]);
    PrecompileStep::QueryQuasar(
        QuasarRequest {
            validator,
            commitment,
            witness,
            target: LUX_QUASAR_ADDR,
            gas_supplied: QUASAR_GAS_SUPPLY,
        },
    )
}

/// The result of quasar_query once the Lux precompile has answered. A
/// single-byte answer is the membership decision: the output is then
/// `validator(20) ++ commitment(32) ++ is-member(1)`, and the gas is what the
/// Lux precompile consumed plus the routing fee. Any other answer length, or a
/// dispatch failure, reverts.
pub open spec fn spec_finish_quasar_query(
    validator: Seq<u8>,
    commitment: Seq<u8>,
    reply: Result<(Seq<u8>, u64), Seq<char>>,
) -> PrecompileOutcome {
    match reply {
        Err(e) => revert_with("luxprecompile dispatch failed: "@ + e),
        Ok((output, remaining)) => if output.len() == 1 {
            PrecompileOutcome::Success {
                output: validator + commitment + seq![
                    if output[0] != 0 {
                        1u8
                    } else {
                        0u8
                    },
                ],
                gas_used: ((if remaining <= QUASAR_GAS_SUPPLY {
                    QUASAR_GAS_SUPPLY - remaining
                } else {
                    0
                }) + QUASAR_ROUTING_FEE) as u64,
            }
        } else {
            revert_with(
                "unexpected quasar output length: "@ + decimal(output.len()) + " bytes"@,
            )
        },
    }
}

/// The mathematical value of the Lux precompile's reply.
pub open spec fn quasar_reply_view(reply: Result<QuasarReply, String>) -> Result<(Seq<u8>, u64), Seq<char>> {
    match reply {
        Ok(q) => Ok((q.output@, q.remaining_gas)),
        Err(e) => Err(e@),
    }
}

/// Shape the result of quasar_query from the Lux precompile's reply.
pub fn finish_quasar_query(
    request: &QuasarRequest,
    reply: Result<QuasarReply, String>,
) -> (r: PrecompileResult)
    ensures
        r@ == spec_finish_quasar_query(
            request.validator@,
            request.commitment@,
            quasar_reply_view(reply),
        ),
{
    match reply {
        Err(e) => revert_concat("luxprecompile dispatch failed: ", e.as_str()),
        Ok(q) => {
            if q.output.len() != 1 {
                let mut reason = String::from_str("unexpected quasar output length: ");
                let count = decimal_text(q.output.len());
                reason.append(count.as_str());
                reason.append(" bytes");
                return PrecompileResult::Revert { reason };
            }
            let is_member = q.output[0] != 0;
            let mut output: Vec<u8> = Vec::new();
            let mut i: usize = 0;
            while i < request.validator.len()
                invariant
                    0 <= i <= request.validator@.len(),
                    output@ =~= request.validator@.take(i as int),
                decreases request.validator@.len() - i,
            {
                output.push(request.validator[i]);
                i = i + 1;
            }
            let mut j: usize = 0;
            while j < request.commitment.len()
                invariant
                    0 <= j <= request.commitment@.len(),
                    output@ =~= request.validator@ + request.commitment@.take(j as int),
                decreases request.commitment@.len() - j,
            {
                output.push(request.commitment[j]);
                j = j + 1;
            }
            output.push(if is_member { 1u8 } else { 0u8 });
            let gas_used = QUASAR_GAS_SUPPLY.saturating_sub(q.remaining_gas).saturating_add(
                QUASAR_ROUTING_FEE,
            );
            assert(output@ =~= request.validator@ + request.commitment@ + seq![
                if q.output@[0] != 0 {
                    1u8
                } else {
                    0u8
                },
            ]);
            PrecompileResult::Success { output, gas_used }
        },
    }
}

// ---------------------------------------------------------------------------
// ai_inference and ai_embedding
// ---------------------------------------------------------------------------

/// How ai_inference decodes `input`:
///
/// | Offset  | Length | Field                                          |
/// |---------|--------|------------------------------------------------|
/// | 0       | 4      | selector (callers may pass 0; reserved)        |
/// | 4       | 32     | model name (UTF-8, NUL-padded; empty = default)|
/// | 36      | ..     | prompt bytes                                   |
///
/// The gas is the input-based inference gas.
pub open spec fn spec_ai_inference(input: Seq<u8>) -> StepView {
    if input.len() < AI_HEADER_LEN as int {
        StepView::Done(
            revert_with("ai_inference requires at least 36 bytes (selector + model id)"@),
        )
    } else if input.len() == AI_HEADER_LEN as int {
        StepView::Done(revert_with("ai_inference requires a non-empty prompt"@))
    } else {
        StepView::Infer {
            model: spec_model_name(input.subrange(4, 36)),
            payload: input.subrange(36, input.len() as int),
            gas_used: spec_inference_gas(input.len() as int) as u64,
        }
    }
}

/// How ai_embedding decodes `input`: the same layout as ai_inference, with
/// the text to embed after the header, and the input-based embedding gas.
pub open spec fn spec_ai_embedding(input: Seq<u8>) -> StepView {
    if input.len() < AI_HEADER_LEN as int {
        StepView::Done(
            revert_with("ai_embedding requires at least 36 bytes (selector + model id)"@),
        )
    } else if input.len() == AI_HEADER_LEN as int {
        StepView::Done(revert_with("ai_embedding requires non-empty text"@))
    } else {
        StepView::Embed {
            model: spec_model_name(input.subrange(4, 36)),
            payload: input.subrange(36, input.len() as int),
            gas_used: spec_embedding_gas(input.len() as int) as u64,
        }
    }
}

/// AI text generation: decode the model name and prompt to hand to the
/// inference engine, or revert on a short input or an empty prompt.
pub fn exec_ai_inference(input: &[u8]) -> (step: PrecompileStep)
    ensures
        step@ == spec_ai_inference(input@),
{
    if input.len() < AI_HEADER_LEN {
        return PrecompileStep::Done(
            revert("ai_inference requires at least 36 bytes (selector + model id)"),
        );
    }
    let model = model_name(&input[4..36]);
    if input.len() == AI_HEADER_LEN {
        return PrecompileStep::Done(revert("ai_inference requires a non-empty prompt"));
    }
    let payload = slice_to_vec(&input[AI_HEADER_LEN..input.len()]);
    let gas_used = inference_gas(input.len());
    PrecompileStep::Infer(ModelRequest { model, payload, gas_used })
}

/// AI embedding generation: decode the model name and text to hand to the
/// embedding engine, or revert on a short input or empty text.
pub fn exec_ai_embedding(input: &[u8]) -> (step: PrecompileStep)
    ensures
        step@ == spec_ai_embedding(input@),
{
    if input.len() < AI_HEADER_LEN {
        return PrecompileStep::Done(
            revert("ai_embedding requires at least 36 bytes (selector + model id)"),
        );
    }
    let model = model_name(&input[4..36]);
    if input.len() == AI_HEADER_LEN {
        return PrecompileStep::Done(revert("ai_embedding requires non-empty text"));
    }
    let payload = slice_to_vec(&input[AI_HEADER_LEN..input.len()]);
    let gas_used = embedding_gas(input.len());
    PrecompileStep::Embed(ModelRequest { model, payload, gas_used })
}

/// The revert that an engine failure of a call named `call` (`"ai_inference"`
/// or `"ai_embedding"`) produces.
pub open spec fn engine_revert(call: Seq<char>, f: FailureView) -> PrecompileOutcome {
    match f {
        FailureView::NoInferenceEngine => revert_with(
            "no inference engine registered on this node"@,
        ),
        FailureView::NoEmbeddingEngine => revert_with(
            "no embedding engine registered on this node"@,
        ),
        FailureView::ModelNotFound(id) => revert_with(call + " model not found: "@ + id),
        FailureView::Other(msg) => revert_with(call + " engine failure: "@ + msg),
    }
}

fn engine_failure_revert(call: &str, failure: EngineFailure) -> (r: PrecompileResult)
    ensures
        r@ == engine_revert(call@, failure@),
{
    match failure {
        EngineFailure::NoInferenceEngine => revert("no inference engine registered on this node"),
        EngineFailure::NoEmbeddingEngine => revert("no embedding engine registered on this node"),
        EngineFailure::ModelNotFound(id) => {
            let mut reason = String::from_str(call);
            reason.append(" model not found: ");
            reason.append(id.as_str());
            PrecompileResult::Revert { reason }
        },
        EngineFailure::Other(msg) => {
            let mut reason = String::from_str(call);
            reason.append(" engine failure: ");
            reason.append(msg.as_str());
            PrecompileResult::Revert { reason }
        },
    }
}

/// The result of ai_inference once the engine has answered: its output bytes
/// with the input-based gas, or the revert for its failure.
pub fn finish_ai_inference(
    request: &ModelRequest,
    reply: Result<Vec<u8>, EngineFailure>,
) -> (r: PrecompileResult)
    ensures
        r@ == match reply {
            Ok(output) => PrecompileOutcome::Success {
                output: output@,
                gas_used: request.gas_used,
            },
            Err(f) => engine_revert("ai_inference"@, f@),
        },
{
    match reply {
        Ok(output) => PrecompileResult::Success { output, gas_used: request.gas_used },
        Err(f) => engine_failure_revert("ai_inference", f),
    }
}

/// The little-endian bytes of one 32-bit word.
pub open spec fn le_bytes(w: u32) -> Seq<u8> {
    seq![w as u8, (w >> 8u32) as u8, (w >> 16u32) as u8, (w >> 24u32) as u8]
}

/// The little-endian bytes of each word in turn.
pub open spec fn le_bytes_of_words(words: Seq<u32>) -> Seq<u8>
    decreases words.len(),
{
    if words.len() == 0 {
        Seq::empty()
    } else {
        le_bytes_of_words(words.drop_last()) + le_bytes(words.last())
    }
}

pub proof fn lemma_le_bytes_of_words_len(words: Seq<u32>)
    ensures
        le_bytes_of_words(words).len() == 4 * words.len(),
    decreases words.len(),
{
    if words.len() > 0 {
        lemma_le_bytes_of_words_len(words.drop_last());
    }
}

/// Concatenate the little-endian bytes of `words`: the wire form of an
/// embedding, each word being the IEEE-754 bit pattern of one `f32`.
pub fn pack_le_words(words: &Vec<u32>) -> (out: Vec<u8>)
    ensures
        out@ == le_bytes_of_words(words@),
        out@.len() == 4 * words@.len(),
{
    let mut out: Vec<u8> = Vec::new();
    let mut i: usize = 0;
    while i < words.len()
        invariant
            0 <= i <= words@.len(),
            out@ == le_bytes_of_words(words@.take(i as int)),
        decreases words@.len() - i,
    {
        let w = words[i];
        out.push(w as u8);
        out.push((w >> 8u32) as u8);
        out.push((w >> 16u32) as u8);
        out.push((w >> 24u32) as u8);
        assert(words@.take(i + 1).drop_last() =~= words@.take(i as int));
        assert(out@ =~= le_bytes_of_words(words@.take(i + 1)));
        i = i + 1;
    }
    assert(words@.take(words@.len() as int) =~= words@);
    proof {
        lemma_le_bytes_of_words_len(words@);
    }
    out
}

/// The result of ai_embedding once the engine has answered: the embedding as
/// little-endian `f32` bit patterns with the input-based gas, or the revert
/// for its failure.
pub fn finish_ai_embedding(
    request: &ModelRequest,
    reply: Result<Vec<u32>, EngineFailure>,
) -> (r: PrecompileResult)
    ensures
        r@ == match reply {
            Ok(words) => PrecompileOutcome::Success {
                output: le_bytes_of_words(words@),
                gas_used: request.gas_used,
            },
            Err(f) => engine_revert("ai_embedding"@, f@),
        },
{
    match reply {
        Ok(words) => PrecompileResult::Success {
            output: pack_le_words(&words),
            gas_used: request.gas_used,
        },
        Err(f) => engine_failure_revert("ai_embedding", f),
    }
}

} // verus!
