use hanzo_vm::address::{ADDR_AI_EMBEDDING, ADDR_AI_INFERENCE, ADDR_PQ_VERIFY};
use hanzo_vm::bytecode::{aipay_bytecode, passthrough_bytecode};
use hanzo_vm::gas::required_gas;
use hanzo_vm::interpreter::{ai_precompile_at, settle_ai_call, AiCallStatus, GasMeter};
use hanzo_vm::outcome::{PrecompileResult, PrecompileStep};
use hanzo_vm::registry::PrecompileRegistry;

#[test]
fn aipay_bytecode_matches_canonical_hex() {
    const CANONICAL: &str =
        "3460005401600055366000600437600060006004360160006000620200015af1503d600060003e3d6000f3";
    assert_eq!(hex::encode(aipay_bytecode()), CANONICAL);
}

#[test]
fn passthrough_bytecode_embeds_address() {
    let code = passthrough_bytecode([0x02, 0x00, 0x02]);
    assert_eq!(code.len(), 32);
    assert_eq!(&code[15..19], &[0x62, 0x02, 0x00, 0x02]);
    assert_eq!(code[0], 0x36);
    assert_eq!(*code.last().unwrap(), 0xf3);
    assert_eq!(
        hex::encode(passthrough_bytecode([0x01, 0x00, 0x01])),
        "366000600037600060003660006000620100015af1503d600060003e3d6000f3"
    );
}

/// A reverting AI inference call consumes the canonical required gas, and the
/// remainder is refunded.
#[test]
fn ai_inference_revert_charges_canonical_required_gas() {
    let short = [0u8; 8];
    let gas_limit = 5_000_000u64;
    let result = match PrecompileRegistry::default().call(&ADDR_AI_INFERENCE, &short) {
        Some(PrecompileStep::Done(result)) => Some(result),
        other => panic!("a short input is decided without the engine, got {other:?}"),
    };
    let res = settle_ai_call(&ADDR_AI_INFERENCE, short.len(), result, gas_limit);

    let want = required_gas(&ADDR_AI_INFERENCE, short.len()).expect("AI addr has required_gas");
    assert_eq!(res.status, AiCallStatus::Revert, "short input must REVERT");
    assert_eq!(res.gas.spent(), want, "revert must consume canonical required_gas");
    assert_eq!(res.gas.remaining(), gas_limit - want, "the remainder must be refunded");
    assert_eq!(want, 120_000, "base required_gas for sub-header input is GAS_BASE_INFER");
    assert!(!res.output.is_empty(), "revert returndata must carry the reason string");
}

#[test]
fn settle_success_charges_reported_gas() {
    let res = settle_ai_call(
        &ADDR_AI_INFERENCE,
        40,
        Some(PrecompileResult::Success { output: vec![1, 2, 3], gas_used: 120_120 }),
        200_000,
    );
    assert_eq!(res.status, AiCallStatus::Return);
    assert_eq!(res.gas.spent(), 120_120);
    assert_eq!(res.gas.limit(), 200_000);
    assert_eq!(res.output, vec![1, 2, 3]);
}

#[test]
fn settle_out_of_gas() {
    let res = settle_ai_call(
        &ADDR_AI_INFERENCE,
        40,
        Some(PrecompileResult::Success { output: vec![1], gas_used: 120_120 }),
        100,
    );
    assert_eq!(res.status, AiCallStatus::PrecompileOOG);
    assert_eq!(res.gas.remaining(), 100);
    assert!(res.output.is_empty());

    let res = settle_ai_call(
        &ADDR_AI_EMBEDDING,
        0,
        Some(PrecompileResult::Revert { reason: "r".to_string() }),
        49_999,
    );
    assert_eq!(res.status, AiCallStatus::PrecompileOOG);
    assert_eq!(res.gas.spent(), 0);
}

#[test]
fn settle_revert_off_the_ai_addresses_charges_nothing() {
    let res = settle_ai_call(
        &ADDR_PQ_VERIFY,
        10,
        Some(PrecompileResult::Revert { reason: "why".to_string() }),
        1_000,
    );
    assert_eq!(res.status, AiCallStatus::Revert);
    assert_eq!(res.gas.spent(), 0);
    assert_eq!(res.output, b"why".to_vec());
}

#[test]
fn settle_error_and_missing_precompile() {
    let res = settle_ai_call(
        &ADDR_AI_INFERENCE,
        10,
        Some(PrecompileResult::Error { message: "bad".to_string() }),
        1_000,
    );
    assert_eq!(res.status, AiCallStatus::PrecompileError);
    assert_eq!(res.gas.spent(), 0);
    assert!(res.output.is_empty());
    let res = settle_ai_call(&[0xff; 20], 10, None, 1_000);
    assert_eq!(res.status, AiCallStatus::PrecompileError);
}

#[test]
fn success_and_revert_charge_alike() {
    let len = 36 + 10;
    let gas = required_gas(&ADDR_AI_EMBEDDING, len).unwrap();
    let ok = settle_ai_call(
        &ADDR_AI_EMBEDDING,
        len,
        Some(PrecompileResult::Success { output: vec![0; 8], gas_used: gas }),
        1_000_000,
    );
    let rev = settle_ai_call(
        &ADDR_AI_EMBEDDING,
        len,
        Some(PrecompileResult::Revert { reason: "no".to_string() }),
        1_000_000,
    );
    assert_eq!(ok.gas.remaining(), rev.gas.remaining());
    assert_eq!(ok.gas.spent(), 50_160);
}

#[test]
fn gas_meter_records_costs() {
    let mut gas = GasMeter::new(100);
    assert!(gas.record_cost(60));
    assert_eq!(gas.remaining(), 40);
    assert!(!gas.record_cost(41));
    assert_eq!(gas.remaining(), 40);
    assert!(gas.record_cost(40));
    assert_eq!(gas.spent(), 100);
}

#[test]
fn ai_precompile_routing() {
    assert_eq!(ai_precompile_at(&ADDR_AI_INFERENCE), Some(ADDR_AI_INFERENCE));
    assert_eq!(ai_precompile_at(&ADDR_AI_EMBEDDING), Some(ADDR_AI_EMBEDDING));
    assert_eq!(ai_precompile_at(&ADDR_PQ_VERIFY), None);
}

#[test]
fn aipay_calls_the_inference_precompile() {
    let code = aipay_bytecode();
    assert_eq!(code[26], 0x62, "PUSH3");
    assert_eq!(&code[27..30], &ADDR_AI_INFERENCE[17..20]);
}

#[test]
fn ai_call_gas_is_the_required_gas() {
    let mut input = vec![0u8; 36];
    input.extend_from_slice(b"some prompt bytes");
    let reg = PrecompileRegistry::default();
    match reg.call(&ADDR_AI_INFERENCE, &input) {
        Some(PrecompileStep::Infer(request)) => {
            assert_eq!(Some(request.gas_used), required_gas(&ADDR_AI_INFERENCE, input.len()));
        }
        other => panic!("expected a model call, got {other:?}"),
    }
    match reg.call(&ADDR_AI_EMBEDDING, &input) {
        Some(PrecompileStep::Embed(request)) => {
            assert_eq!(Some(request.gas_used), required_gas(&ADDR_AI_EMBEDDING, input.len()));
        }
        other => panic!("expected a model call, got {other:?}"),
    }
}
