//! Runtime bytecode fixtures that drive the precompiles from real EVM code.

use vstd::prelude::*;

verus! {

/// Runtime of a contract that forwards its calldata to the precompile whose
/// address ends in the three bytes `lo3`, and returns its returndata.
pub open spec fn spec_passthrough_bytecode(lo3: Seq<u8>) -> Seq<u8> {
    seq![
        0x36u8, // CALLDATASIZE
        0x60, 0x00, // PUSH1 0  destOffset
        0x60, 0x00, // PUSH1 0  offset
        0x37, // CALLDATACOPY -> mem[0:cds]=calldata
        0x60, 0x00, // PUSH1 0  retLength
        0x60, 0x00, // PUSH1 0  retOffset
        0x36, // CALLDATASIZE argsLength
        0x60, 0x00, // PUSH1 0  argsOffset
        0x60, 0x00, // PUSH1 0  value
        0x62, lo3[0], lo3[1], lo3[2], // PUSH3 address
        0x5a, // GAS
        0xf1, // CALL
        0x50, // POP
        0x3d, // RETURNDATASIZE
        0x60, 0x00, // PUSH1 0
        0x60, 0x00, // PUSH1 0
        0x3e, // RETURNDATACOPY
        0x3d, // RETURNDATASIZE
        0x60, 0x00, // PUSH1 0
        0xf3, // RETURN
    ]
}

/// Runtime bytecode of a passthrough contract that forwards its calldata to a
/// precompile `addr` (low 3 bytes `b2 b1 b0`) via `CALL` and returns the
/// returndata.
pub fn passthrough_bytecode(addr_lo3: [u8; 3]) -> (code: Vec<u8>)
    ensures
        code@ == spec_passthrough_bytecode(addr_lo3@),
{
    let code = vec![
        0x36u8, // CALLDATASIZE
        0x60, 0x00, // PUSH1 0  destOffset
        0x60, 0x00, // PUSH1 0  offset
        0x37, // CALLDATACOPY -> mem[0:cds]=calldata
        0x60, 0x00, // PUSH1 0  retLength
        0x60, 0x00, // PUSH1 0  retOffset
        0x36, // CALLDATASIZE argsLength
        0x60, 0x00, // PUSH1 0  argsOffset
        0x60, 0x00, // PUSH1 0  value
        0x62, addr_lo3[0], addr_lo3[1], addr_lo3[2], // PUSH3 address
        0x5a, // GAS
        0xf1, // CALL
        0x50, // POP
        0x3d, // RETURNDATASIZE
        0x60, 0x00, // PUSH1 0
        0x60, 0x00, // PUSH1 0
        0x3e, // RETURNDATACOPY
        0x3d, // RETURNDATASIZE
        0x60, 0x00, // PUSH1 0
        0xf3, // RETURN
    ];
    assert(code@ =~= spec_passthrough_bytecode(addr_lo3@));
    code
}

/// Runtime of the AIPay contract, byte for byte the same across the Rust and
/// Go VMs: canonical hex
/// `3460005401600055366000600437600060006004360160006000620200015af1503d600060003e3d6000f3`.
pub open spec fn spec_aipay_bytecode() -> Seq<u8> {
    seq![
        0x34u8, 0x60, 0x00, 0x54, 0x01, 0x60, 0x00, 0x55, 0x36, 0x60, 0x00, 0x60, 0x04, 0x37,
        0x60, 0x00, 0x60, 0x00, 0x60, 0x04, 0x36, 0x01, 0x60, 0x00, 0x60, 0x00, 0x62, 0x02,
        0x00, 0x01, 0x5a, 0xf1, 0x50, 0x3d, 0x60, 0x00, 0x60, 0x00, 0x3e, 0x3d, 0x60, 0x00,
        0xf3,
    ]
}

/// Runtime bytecode of the shared **AIPay** contract.
///
/// Contract calldata is `[model(32, UTF-8 NUL-padded)][prompt]`; the
/// transaction carries `msg.value` as the payment. The contract:
///
/// 1. accrues the payment on-chain: `sstore(0, sload(0) + callvalue)`,
/// 2. lays out precompile calldata in memory as
///    `[selector(4)=0][model(32)][prompt]` by copying the call's calldata to
///    `mem[4..]` (leaving `mem[0..4]` zero),
/// 3. `CALL`s the AI inference precompile `0x020001` with `argsOffset=0`,
///    `argsLength = 4 + calldatasize`,
/// 4. returns the precompile's returndata (the model output).
pub fn aipay_bytecode() -> (code: Vec<u8>)
    ensures
        code@ == spec_aipay_bytecode(),
{
    let code = vec![
        0x34u8, // CALLVALUE
        0x60, 0x00, // PUSH1 0
        0x54, // SLOAD            -> sload(0)
        0x01, // ADD              -> sload(0) + callvalue
        0x60, 0x00, // PUSH1 0
        0x55, // SSTORE           -> sstore(0, sum)  [payment accrued on-chain]
        0x36, // CALLDATASIZE
        0x60, 0x00, // PUSH1 0    src offset
        0x60, 0x04, // PUSH1 4    dest offset
        0x37, // CALLDATACOPY     -> mem[4 : 4+cds] = calldata; mem[0..4] = 0 (selector)
        0x60, 0x00, // PUSH1 0    retLength
        0x60, 0x00, // PUSH1 0    retOffset
        0x60, 0x04, // PUSH1 4
        0x36, // CALLDATASIZE
        0x01, // ADD              -> argsLength = 4 + cds
        0x60, 0x00, // PUSH1 0    argsOffset
        0x60, 0x00, // PUSH1 0    value (inner CALL carries none)
        0x62, 0x02, 0x00, 0x01, // PUSH3 0x020001  ADDR_AI_INFERENCE low 3 bytes
        0x5a, // GAS
        0xf1, // CALL            -> precompile input = mem[0 : 4+cds]
        0x50, // POP             -> drop success flag
        0x3d, // RETURNDATASIZE
        0x60, 0x00, // PUSH1 0
        0x60, 0x00, // PUSH1 0
        0x3e, // RETURNDATACOPY   -> mem[0 : rds] = returndata
        0x3d, // RETURNDATASIZE
        0x60, 0x00, // PUSH1 0
        0xf3, // RETURN           -> return mem[0 : rds] (the model output)
    ];
    assert(code@ =~= spec_aipay_bytecode());
    code
}

} // verus!
