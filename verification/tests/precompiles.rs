use hanzo_vm::address::LUX_QUASAR_ADDR;
use hanzo_vm::outcome::{EngineFailure, PrecompileResult, PrecompileStep, QuasarReply};
use hanzo_vm::precompiles::{
    exec_ai_embedding, exec_ai_inference, exec_pq_verify, exec_quasar_query, finish_ai_embedding,
    finish_ai_inference, finish_pq_verify, finish_quasar_query, pack_le_words,
};
use hanzo_vm::text::model_name;

fn revert_reason(step: PrecompileStep) -> String {
    match step {
        PrecompileStep::Done(PrecompileResult::Revert { reason }) => reason,
        other => panic!("expected Revert, got {other:?}"),
    }
}

// ---------------------------------------------------------------------------
// pq_verify
// ---------------------------------------------------------------------------

#[test]
fn pq_verify_rejects_short_input() {
    let result = exec_pq_verify(&[0; 5]);
    assert!(matches!(result, PrecompileStep::Done(PrecompileResult::Revert { .. })));
}

/// pk_len=1, pk=[0x00], sig_len=1, sig=[0x00], msg=[0x42]: a one-byte key
/// matches no ML-DSA parameter set, for which the verifier answers
/// `Ok(false)`, so the precompile returns a 32-byte zero word.
#[test]
fn pq_verify_rejects_unsupported_pubkey_length() {
    let mut input = Vec::new();
    input.extend_from_slice(&1u32.to_be_bytes());
    input.push(0x00);
    input.extend_from_slice(&1u32.to_be_bytes());
    input.push(0x00);
    input.push(0x42);

    let request = match exec_pq_verify(&input) {
        PrecompileStep::VerifyMlDsa(request) => request,
        other => panic!("expected a signature check, got {other:?}"),
    };
    assert_eq!(request.public_key, vec![0x00]);
    assert_eq!(request.signature, vec![0x00]);
    assert_eq!(request.message, vec![0x42]);
    match finish_pq_verify(&request, Ok(false)) {
        PrecompileResult::Success { output, .. } => {
            assert_eq!(output.len(), 32);
            assert!(output.iter().all(|&b| b == 0));
        }
        other => panic!("expected Success(zero word), got {other:?}"),
    }
}

/// An ML-DSA-65 sized call (1952-byte key, 3309-byte signature): the key,
/// signature and message handed to the verifier are exactly the calldata's
/// fields, a valid verdict gives the word ending in 1, and the verdict for a
/// tampered message gives the zero word. The verifier itself (`hanzo-pqc`)
/// runs outside the library.
#[test]
fn exec_pq_verify_real_mldsa65_roundtrip() {
    let pk: Vec<u8> = (0..1952u32).map(|i| (i % 251) as u8).collect();
    let sig: Vec<u8> = (0..3309u32).map(|i| (i % 241) as u8).collect();
    let message = b"hanzo-vm pq_verify integration message";

    let mut input = Vec::new();
    input.extend_from_slice(&(pk.len() as u32).to_be_bytes());
    input.extend_from_slice(&pk);
    input.extend_from_slice(&(sig.len() as u32).to_be_bytes());
    input.extend_from_slice(&sig);
    input.extend_from_slice(message);

    let request = match exec_pq_verify(&input) {
        PrecompileStep::VerifyMlDsa(request) => request,
        other => panic!("expected a signature check, got {other:?}"),
    };
    assert_eq!(request.public_key, pk);
    assert_eq!(request.signature, sig);
    assert_eq!(request.message, message.to_vec());
    match finish_pq_verify(&request, Ok(true)) {
        PrecompileResult::Success { output, gas_used } => {
            assert_eq!(output.len(), 32, "output should be a 32-byte word");
            assert_eq!(output[31], 1, "signature should verify");
            assert!(gas_used >= 3_000, "gas should include base cost");
            assert_eq!(gas_used, 3_000 + (1952 + 3309) / 16);
        }
        other => panic!("expected Success, got {other:?}"),
    }

    // Flip a single byte of the message: the request carries the tampered
    // message, and a failed verification gives the zero word.
    let mut bad_input = input.clone();
    let msg_offset = 4 + pk.len() + 4 + sig.len();
    bad_input[msg_offset] ^= 0x01;
    let bad_request = match exec_pq_verify(&bad_input) {
        PrecompileStep::VerifyMlDsa(request) => request,
        other => panic!("expected a signature check, got {other:?}"),
    };
    assert_eq!(bad_request.message[0], message[0] ^ 0x01);
    match finish_pq_verify(&bad_request, Ok(false)) {
        PrecompileResult::Success { output, .. } => {
            assert_eq!(output[31], 0, "tampered message should not verify");
        }
        other => panic!("expected Success(0), got {other:?}"),
    }
}

#[test]
fn pq_verify_decodes_layout_and_gas() {
    let pk = vec![7u8; 40];
    let sig = vec![9u8; 24];
    let msg = b"hello".to_vec();
    let mut input = Vec::new();
    input.extend_from_slice(&(pk.len() as u32).to_be_bytes());
    input.extend_from_slice(&pk);
    input.extend_from_slice(&(sig.len() as u32).to_be_bytes());
    input.extend_from_slice(&sig);
    input.extend_from_slice(&msg);
    match exec_pq_verify(&input) {
        PrecompileStep::VerifyMlDsa(request) => {
            assert_eq!(request.public_key, pk);
            assert_eq!(request.signature, sig);
            assert_eq!(request.message, msg);
            assert_eq!(request.gas_used, 3_000 + (40 + 24) / 16);
            match finish_pq_verify(&request, Ok(true)) {
                PrecompileResult::Success { output, gas_used } => {
                    assert_eq!(output.len(), 32);
                    assert_eq!(output[31], 1);
                    assert!(output[..31].iter().all(|&b| b == 0));
                    assert_eq!(gas_used, 3_004);
                }
                other => panic!("expected Success, got {other:?}"),
            }
        }
        other => panic!("expected a signature check, got {other:?}"),
    }
}

#[test]
fn pq_verify_truncation_reverts() {
    // Key length 100 but only 6 bytes follow.
    let mut input = Vec::new();
    input.extend_from_slice(&100u32.to_be_bytes());
    input.extend_from_slice(&[0u8; 6]);
    assert_eq!(revert_reason(exec_pq_verify(&input)), "input truncated at public key");

    // Key of 2 bytes, signature length 50 but only 4 bytes follow.
    let mut input = Vec::new();
    input.extend_from_slice(&2u32.to_be_bytes());
    input.extend_from_slice(&[1, 2]);
    input.extend_from_slice(&50u32.to_be_bytes());
    input.extend_from_slice(&[0u8; 4]);
    assert_eq!(revert_reason(exec_pq_verify(&input)), "input truncated at signature");

    // A huge key length does not overflow.
    let mut input = vec![0xff, 0xff, 0xff, 0xff];
    input.extend_from_slice(&[0u8; 8]);
    assert_eq!(revert_reason(exec_pq_verify(&input)), "input truncated at public key");
}

#[test]
fn pq_verify_error_becomes_revert() {
    let mut input = Vec::new();
    input.extend_from_slice(&1u32.to_be_bytes());
    input.push(0x00);
    input.extend_from_slice(&1u32.to_be_bytes());
    input.push(0x00);
    let request = match exec_pq_verify(&input) {
        PrecompileStep::VerifyMlDsa(request) => request,
        other => panic!("expected a signature check, got {other:?}"),
    };
    assert!(request.message.is_empty());
    match finish_pq_verify(&request, Err("Invalid verifying key".to_string())) {
        PrecompileResult::Revert { reason } => {
            assert_eq!(reason, "ml-dsa verify error: Invalid verifying key");
        }
        other => panic!("expected Revert, got {other:?}"),
    }
}

// ---------------------------------------------------------------------------
// quasar_query
// ---------------------------------------------------------------------------

#[test]
fn quasar_query_rejects_short_input() {
    let result = exec_quasar_query(&[0; 10]);
    assert!(matches!(result, PrecompileStep::Done(PrecompileResult::Revert { .. })));
}

fn quasar_input(flag: u8) -> Vec<u8> {
    let mut input = Vec::with_capacity(85);
    input.extend_from_slice(&[0x42u8; 20]);
    input.extend_from_slice(&[0xAAu8; 32]);
    input.extend_from_slice(&[0xAAu8; 32]);
    input.push(flag);
    input
}

#[test]
fn exec_quasar_query_routes_through_libluxprecompile() {
    let input = quasar_input(0x01);
    let request = match exec_quasar_query(&input) {
        PrecompileStep::QueryQuasar(request) => request,
        other => panic!("expected a committee query, got {other:?}"),
    };
    assert_eq!(request.witness, input[20..85].to_vec());
    assert_eq!(request.target, LUX_QUASAR_ADDR);
    assert_eq!(request.gas_supplied, 1_000_000);

    let member = finish_quasar_query(
        &request,
        Ok(QuasarReply { output: vec![1], remaining_gas: 990_000 }),
    );
    match member {
        PrecompileResult::Success { output, gas_used } => {
            assert_eq!(output.len(), 53);
            assert_eq!(&output[0..20], &[0x42u8; 20][..]);
            assert_eq!(&output[20..52], &[0xAAu8; 32][..]);
            assert_eq!(output[52], 0x01, "should report member");
            assert_eq!(gas_used, 11_000);
        }
        other => panic!("expected Success(member), got {other:?}"),
    }

    let non_member =
        finish_quasar_query(&request, Ok(QuasarReply { output: vec![0], remaining_gas: 2_000_000 }));
    match non_member {
        PrecompileResult::Success { output, gas_used } => {
            assert_eq!(output[52], 0x00, "should report non-member");
            assert_eq!(gas_used, 1_000);
        }
        other => panic!("expected Success(non-member), got {other:?}"),
    }
}

#[test]
fn quasar_query_bad_replies_revert() {
    let request = match exec_quasar_query(&quasar_input(0)) {
        PrecompileStep::QueryQuasar(request) => request,
        other => panic!("expected a committee query, got {other:?}"),
    };
    match finish_quasar_query(&request, Ok(QuasarReply { output: vec![1, 2, 3], remaining_gas: 0 })) {
        PrecompileResult::Revert { reason } => {
            assert_eq!(reason, "unexpected quasar output length: 3 bytes");
        }
        other => panic!("expected Revert, got {other:?}"),
    }
    match finish_quasar_query(&request, Err("precompile not found".to_string())) {
        PrecompileResult::Revert { reason } => {
            assert_eq!(reason, "luxprecompile dispatch failed: precompile not found");
        }
        other => panic!("expected Revert, got {other:?}"),
    }
}

// ---------------------------------------------------------------------------
// ai_inference
// ---------------------------------------------------------------------------

#[test]
fn ai_inference_rejects_empty() {
    let result = exec_ai_inference(&[]);
    assert!(matches!(result, PrecompileStep::Done(PrecompileResult::Revert { .. })));
}

#[test]
fn ai_inference_rejects_missing_prompt() {
    let input = vec![0u8; 4 + 32];
    let reason = revert_reason(exec_ai_inference(&input));
    assert!(reason.contains("non-empty"), "got reason: {reason}");
}

/// With no inference engine installed the engine answers
/// `NoInferenceEngine`, and the precompile reverts with that reason.
#[test]
fn exec_ai_inference_real_model() {
    let mut input = Vec::new();
    input.extend_from_slice(&[0u8; 4]); // selector
    input.extend_from_slice(&[0xABu8; 32]); // model id
    input.extend_from_slice(b"summarize: this is a tiny prompt");

    let request = match exec_ai_inference(&input) {
        PrecompileStep::Infer(request) => request,
        other => panic!("expected a model call, got {other:?}"),
    };
    assert_eq!(request.payload, b"summarize: this is a tiny prompt".to_vec());
    assert_eq!(request.gas_used, 120_000 + 30 * 32);
    match finish_ai_inference(&request, Err(EngineFailure::NoInferenceEngine)) {
        PrecompileResult::Revert { reason } => {
            assert!(
                reason.contains("inference") && reason.contains("engine"),
                "expected 'no inference engine registered'-like reason, got: {reason}"
            );
        }
        other => panic!("unexpected result: {other:?}"),
    }
    match finish_ai_inference(&request, Ok(b"output".to_vec())) {
        PrecompileResult::Success { output, gas_used } => {
            assert_eq!(output, b"output".to_vec());
            assert_eq!(gas_used, 120_960);
        }
        other => panic!("unexpected result: {other:?}"),
    }
}

#[test]
fn ai_inference_engine_failures() {
    let mut input = vec![0u8; 36];
    input.push(b'x');
    let request = match exec_ai_inference(&input) {
        PrecompileStep::Infer(request) => request,
        other => panic!("expected a model call, got {other:?}"),
    };
    let reason = |f| match finish_ai_inference(&request, Err(f)) {
        PrecompileResult::Revert { reason } => reason,
        other => panic!("unexpected result: {other:?}"),
    };
    assert_eq!(reason(EngineFailure::NoEmbeddingEngine), "no embedding engine registered on this node");
    assert_eq!(
        reason(EngineFailure::ModelNotFound("zen-nano".to_string())),
        "ai_inference model not found: zen-nano"
    );
    assert_eq!(
        reason(EngineFailure::Other("boom".to_string())),
        "ai_inference engine failure: boom"
    );
}

#[test]
fn model_name_is_trimmed_and_unpadded() {
    let mut field = [0u8; 32];
    field[..8].copy_from_slice(b"zen-nano");
    assert_eq!(model_name(&field), "zen-nano");
    assert_eq!(model_name(&[0u8; 32]), "");
    let mut padded = [0u8; 32];
    padded[..6].copy_from_slice(b"  zen ");
    assert_eq!(model_name(&padded), "zen");

    let mut input = vec![0u8; 4];
    input.extend_from_slice(&field);
    input.extend_from_slice(b"hi");
    match exec_ai_inference(&input) {
        PrecompileStep::Infer(request) => assert_eq!(request.model, "zen-nano"),
        other => panic!("expected a model call, got {other:?}"),
    }
}

// ---------------------------------------------------------------------------
// ai_embedding
// ---------------------------------------------------------------------------

#[test]
fn ai_embedding_rejects_short_and_empty() {
    let result = exec_ai_embedding(&[0; 2]);
    assert!(matches!(result, PrecompileStep::Done(PrecompileResult::Revert { .. })));

    let input = vec![0u8; 4 + 32];
    let reason = revert_reason(exec_ai_embedding(&input));
    assert!(reason.contains("non-empty"), "got reason: {reason}");
}

/// With no engine the embedding call reverts; with an engine the output is
/// the embedding as little-endian f32, a non-empty multiple of 4 bytes.
#[test]
fn exec_ai_embedding_real_model() {
    let mut input = Vec::new();
    input.extend_from_slice(&[0u8; 4]); // selector
    input.extend_from_slice(&[0u8; 32]); // model name (empty = default)
    input.extend_from_slice(b"hello world");

    let request = match exec_ai_embedding(&input) {
        PrecompileStep::Embed(request) => request,
        other => panic!("expected a model call, got {other:?}"),
    };
    assert_eq!(request.model, "");
    assert_eq!(request.gas_used, 50_000 + 16 * 11);
    match finish_ai_embedding(&request, Err(EngineFailure::NoEmbeddingEngine)) {
        PrecompileResult::Revert { reason } => {
            assert!(
                reason.contains("embedding") || reason.contains("engine") || reason.contains("model"),
                "expected engine/model-related revert, got: {reason}"
            );
        }
        other => panic!("unexpected result: {other:?}"),
    }
    let vector = [0.5f32, -1.25, 3.0];
    let bits: Vec<u32> = vector.iter().map(|v| v.to_bits()).collect();
    match finish_ai_embedding(&request, Ok(bits)) {
        PrecompileResult::Success { output, gas_used } => {
            assert!(!output.is_empty() && output.len() % 4 == 0);
            let mut expected = Vec::new();
            for v in &vector {
                expected.extend_from_slice(&v.to_le_bytes());
            }
            assert_eq!(output, expected);
            assert_eq!(gas_used, 50_176);
        }
        other => panic!("unexpected result: {other:?}"),
    }
    match finish_ai_embedding(&request, Err(EngineFailure::ModelNotFound("m".to_string()))) {
        PrecompileResult::Revert { reason } => {
            assert_eq!(reason, "ai_embedding model not found: m");
        }
        other => panic!("unexpected result: {other:?}"),
    }
}

#[test]
fn pack_le_words_is_little_endian() {
    assert_eq!(pack_le_words(&vec![]), Vec::<u8>::new());
    assert_eq!(
        pack_le_words(&vec![0x0403_0201, 0xddcc_bbaa]),
        vec![0x01, 0x02, 0x03, 0x04, 0xaa, 0xbb, 0xcc, 0xdd]
    );
}

#[test]
fn model_name_decodes_invalid_utf8_lossily() {
    let mut field = [0u8; 32];
    field[0] = 0xff;
    field[1] = b'a';
    assert_eq!(model_name(&field), "\u{FFFD}a");
    // Whitespace after the padding is removed is trimmed as well.
    let mut tabbed = [0u8; 32];
    tabbed[..5].copy_from_slice(b"\tzen\n");
    assert_eq!(model_name(&tabbed), "zen");
}
