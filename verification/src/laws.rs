//! Properties that span several functions of the library.

use vstd::prelude::*;

use crate::address::{ADDR_AI_EMBEDDING, ADDR_AI_INFERENCE};
use crate::bytecode::spec_aipay_bytecode;
use crate::gas::spec_required_gas;
use crate::interpreter::spec_settle_ai_call;
use crate::outcome::{PrecompileOutcome, StepView};
use crate::precompiles::{
    spec_ai_embedding, spec_ai_inference, spec_finish_pq_verify, spec_finish_quasar_query,
    spec_pq_verify, spec_quasar_query,
};
use crate::pricing::{spec_clamp_wei, MAX_PRICE_WEI, MIN_PRICE_WEI};
use crate::registry::PrecompileEntry;
use crate::text::{is_white_space, law_model_name_round_trip, zero_bytes};
use vstd::utf8::encode_utf8;

verus! {

/// The gas an AI precompile reports when it runs is the canonical required
/// gas of its address for the same input, the amount that is computable
/// before the model runs.
pub proof fn law_ai_gas_is_required_gas(input: Seq<u8>)
    ensures
        spec_ai_inference(input) matches StepView::Infer { gas_used, .. } ==> spec_required_gas(
            ADDR_AI_INFERENCE,
            input.len() as int,
        ) == Some(gas_used),
        spec_ai_embedding(input) matches StepView::Embed { gas_used, .. } ==> spec_required_gas(
            ADDR_AI_EMBEDDING,
            input.len() as int,
        ) == Some(gas_used),
{
    assert(ADDR_AI_INFERENCE != ADDR_AI_EMBEDDING) by {
        assert(ADDR_AI_INFERENCE@[19] != ADDR_AI_EMBEDDING@[19]);
    }
}

/// At an address with a canonical required gas, a call that succeeds having
/// used that gas and a call that reverts leave the same gas: success and
/// revert are charged alike.
pub proof fn law_success_and_revert_charge_alike(
    addr: [u8; 20],
    input_len: int,
    output: Seq<u8>,
    reason: Seq<char>,
    gas_limit: u64,
)
    requires
        spec_required_gas(addr, input_len) is Some,
    ensures
        spec_settle_ai_call(
            addr,
            input_len,
            Some(
                PrecompileOutcome::Success {
                    output,
                    gas_used: spec_required_gas(addr, input_len)->Some_0,
                },
            ),
            gas_limit,
        ).1 == spec_settle_ai_call(
            addr,
            input_len,
            Some(PrecompileOutcome::Revert { reason }),
            gas_limit,
        ).1,
{
}

/// The AIPay contract calls the AI inference precompile: its `PUSH3` operand
/// is the low three bytes of the inference address.
pub proof fn law_aipay_calls_inference()
    ensures
        spec_aipay_bytecode()[26] == 0x62,
        spec_aipay_bytecode().subrange(27, 30) == ADDR_AI_INFERENCE@.subrange(17, 20),
{
    assert(spec_aipay_bytecode().subrange(27, 30) =~= ADDR_AI_INFERENCE@.subrange(17, 20));
}

/// A committee query that the Lux precompile answers with one byte returns
/// 53 bytes: the queried validator, the committee root, and a 0/1 membership
/// flag that is 1 exactly when the answer byte is non-zero.
pub proof fn law_quasar_output_shape(input: Seq<u8>, answer: u8, remaining: u64)
    requires
        input.len() >= 85,
    ensures
        spec_quasar_query(input) matches StepView::QueryQuasar {
            validator,
            commitment,
            ..
        } ==> spec_finish_quasar_query(validator, commitment, Ok((seq![answer], remaining)))
            matches PrecompileOutcome::Success { output, .. } ==> {
            &&& output.len() == 53
            &&& output.subrange(0, 20) == input.subrange(0, 20)
            &&& output.subrange(20, 52) == input.subrange(20, 52)
            &&& output[52] == (if answer != 0 {
                1u8
            } else {
                0u8
            })
        },
{
    let validator = input.subrange(0, 20);
    let commitment = input.subrange(20, 52);
    let out = validator + commitment + seq![if answer != 0 { 1u8 } else { 0u8 }];
    assert(out.subrange(0, 20) =~= validator);
    assert(out.subrange(20, 52) =~= commitment);
}

/// Registering an entry overwrites any entry at its address: the number of
/// registered precompiles grows by one for a new address and stays the same
/// for an address already taken.
pub proof fn law_register_counts_addresses(
    before: Map<[u8; 20], PrecompileEntry>,
    entry: PrecompileEntry,
)
    requires
        before.dom().finite(),
    ensures
        before.insert(entry.address, entry).dom().finite(),
        before.insert(entry.address, entry).dom().len() == before.dom().len() + if before.dom().contains(
            entry.address,
        ) {
            0int
        } else {
            1int
        },
{
    if before.dom().contains(entry.address) {
        assert(before.insert(entry.address, entry).dom() =~= before.dom());
    }
}

/// A committee query forwards exactly the 65 bytes after the validator
/// address, byte for byte: the commitment, then the membership proof, then
/// the threshold flag. The validator and the commitment it echoes are the
/// calldata's own fields.
pub proof fn law_quasar_forwards_witness(input: Seq<u8>)
    requires
        input.len() >= 85,
    ensures
        spec_quasar_query(input) matches StepView::QueryQuasar {
            validator,
            commitment,
            witness,
            ..
        } && {
            &&& witness.len() == 65
            &&& witness == input.subrange(20, 85)
            &&& witness.subrange(0, 32) == input.subrange(20, 52)
            &&& witness.subrange(32, 64) == input.subrange(52, 84)
            &&& witness[64] == input[84]
            &&& validator == input.subrange(0, 20)
            &&& commitment == input.subrange(20, 52)
        },
{
    let w = input.subrange(20, 85);
    assert(w.subrange(0, 32) =~= input.subrange(20, 52));
    assert(w.subrange(32, 64) =~= input.subrange(52, 84));
}

/// The signature check's verdict decides only the last byte of the 32-byte
/// answer word: a valid and an invalid signature are charged the same gas,
/// the gas fixed before verification.
pub proof fn law_pq_verdict_keeps_gas(gas_used: u64, valid: bool)
    ensures
        spec_finish_pq_verify(gas_used, Ok(valid)) matches PrecompileOutcome::Success {
            output,
            gas_used: charged,
        } && {
            &&& charged == gas_used
            &&& output.len() == 32
            &&& output[31] == (if valid {
                1u8
            } else {
                0u8
            })
            &&& forall|i: int| 0 <= i < 31 ==> output[i] == 0u8
        },
        spec_finish_pq_verify(gas_used, Ok(true)) matches PrecompileOutcome::Success {
            gas_used: g1,
            ..
        } && spec_finish_pq_verify(gas_used, Ok(false)) matches PrecompileOutcome::Success {
            gas_used: g2,
            ..
        } && g1 == g2,
{
}

/// The gas of a signature check is its base plus one sixteenth of the key and
/// signature bytes handed to the verifier.
pub proof fn law_pq_gas_from_key_and_signature(input: Seq<u8>)
    ensures
        spec_pq_verify(input) matches StepView::VerifyMlDsa {
            public_key,
            signature,
            gas_used,
            ..
        } ==> gas_used == 3000 + (public_key.len() + signature.len()) / 16,
{
}

/// A model name written as UTF-8 and NUL-padded over the whole 32-byte model
/// field of an inference call is the model the call asks for, and the prompt
/// is everything after the field.
pub proof fn law_ai_inference_reads_whole_model_field(
    selector: Seq<u8>,
    name: Seq<char>,
    padding: nat,
    prompt: Seq<u8>,
)
    requires
        selector.len() == 4,
        encode_utf8(name).len() + padding == 32,
        prompt.len() > 0,
        name.len() == 0 || (name.last() != '\0' && !is_white_space(name[0]) && !is_white_space(
            name.last(),
        )),
    ensures
        spec_ai_inference(selector + (encode_utf8(name) + zero_bytes(padding)) + prompt) matches StepView::Infer {
            model,
            payload,
            ..
        } && model == name && payload == prompt,
{
    let field = encode_utf8(name) + zero_bytes(padding);
    let input = selector + field + prompt;
    law_model_name_round_trip(name, padding);
    assert(input.subrange(4, 36) =~= field);
    assert(input.subrange(36, input.len() as int) =~= prompt);
}

/// A model name written as UTF-8 and NUL-padded over the whole 32-byte model
/// field of an embedding call is the model the call asks for, and the text is
/// everything after the field.
pub proof fn law_ai_embedding_reads_whole_model_field(
    selector: Seq<u8>,
    name: Seq<char>,
    padding: nat,
    text: Seq<u8>,
)
    requires
        selector.len() == 4,
        encode_utf8(name).len() + padding == 32,
        text.len() > 0,
        name.len() == 0 || (name.last() != '\0' && !is_white_space(name[0]) && !is_white_space(
            name.last(),
        )),
    ensures
        spec_ai_embedding(selector + (encode_utf8(name) + zero_bytes(padding)) + text) matches StepView::Embed {
            model,
            payload,
            ..
        } && model == name && payload == text,
{
    let field = encode_utf8(name) + zero_bytes(padding);
    let input = selector + field + text;
    law_model_name_round_trip(name, padding);
    assert(input.subrange(4, 36) =~= field);
    assert(input.subrange(36, input.len() as int) =~= text);
}

/// Clamping leaves a price inside the band unchanged, raises one below it to
/// the floor, and lowers one above it to the ceiling.
pub proof fn law_clamp_keeps_in_band_prices(wei: u128)
    ensures
        MIN_PRICE_WEI <= wei <= MAX_PRICE_WEI ==> spec_clamp_wei(wei) == wei,
        wei < MIN_PRICE_WEI ==> spec_clamp_wei(wei) == MIN_PRICE_WEI,
        wei > MAX_PRICE_WEI ==> spec_clamp_wei(wei) == MAX_PRICE_WEI,
{
}

} // verus!
