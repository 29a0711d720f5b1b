//! How an AI precompile call settles with the EVM interpreter: the gas it
//! charges against the call's gas limit, the status it ends in, and the
//! returndata it leaves.
//!
//! A reverting AI precompile consumes the canonical `required_gas(input)`,
//! the same amount an input-based pre-charge takes before the precompile
//! runs, and the rest of the gas limit is refunded.

use vstd::prelude::*;
use vstd::slice::slice_to_vec;
use vstd::string::StringSliceAdditionalSpecFns;
use vstd::utf8::encode_utf8;

use crate::address::{same_address, ADDR_AI_EMBEDDING, ADDR_AI_INFERENCE};
use crate::gas::{required_gas, spec_required_gas};
use crate::outcome::{PrecompileOutcome, PrecompileResult};

verus! {

/// Gas accounting of one call frame: a limit and what is left of it.
#[derive(Debug)]
pub struct GasMeter {
    limit: u64,
    remaining: u64,
}

impl GasMeter {
    #[verifier::type_invariant]
    closed spec fn within_limit(self) -> bool {
        self.remaining <= self.limit
    }

    /// The gas limit.
    pub closed spec fn spec_limit(self) -> u64 {
        self.limit
    }

    /// The gas left.
    pub closed spec fn spec_remaining(self) -> u64 {
        self.remaining
    }

    /// A meter with all of `limit` left.
    pub fn new(limit: u64) -> (g: Self)
        ensures
            g.spec_limit() == limit,
            g.spec_remaining() == limit,
    {
        GasMeter { limit, remaining: limit }
    }

    /// Charge `cost`: succeeds, and takes it from what is left, exactly when
    /// enough is left; otherwise leaves the meter as it was.
    pub fn record_cost(&mut self, cost: u64) -> (ok: bool)
        ensures
            final(self).spec_limit() == old(self).spec_limit(),
            ok == (cost <= old(self).spec_remaining()),
            ok ==> final(self).spec_remaining() == old(self).spec_remaining() - cost,
            !ok ==> final(self).spec_remaining() == old(self).spec_remaining(),
    {
        proof {
            use_type_invariant(&*self);
        }
        if cost <= self.remaining {
            self.remaining = self.remaining - cost;
            true
        } else {
            false
        }
    }

    /// The gas limit.
    pub fn limit(&self) -> (r: u64)
        ensures
            r == self.spec_limit(),
    {
        self.limit
    }

    /// The gas left.
    pub fn remaining(&self) -> (r: u64)
        ensures
            r == self.spec_remaining(),
    {
        self.remaining
    }

    /// The gas spent: the limit less what is left.
    pub fn spent(&self) -> (r: u64)
        ensures
            r == self.spec_limit() - self.spec_remaining(),
    {
        proof {
            use_type_invariant(self);
        }
        self.limit - self.remaining
    }
}

/// Which AI precompile, if any, lives at `addr`: the interpreter routes calls
/// to these two addresses through the precompile registry and every other
/// address to the stock Ethereum precompiles.
pub fn ai_precompile_at(addr: &[u8; 20]) -> (r: Option<[u8; 20]>)
    ensures
        r == if *addr == ADDR_AI_INFERENCE {
            Some(ADDR_AI_INFERENCE)
        } else if *addr == ADDR_AI_EMBEDDING {
            Some(ADDR_AI_EMBEDDING)
        } else {
            None::<[u8; 20]>
        },
{
    if same_address(addr, &ADDR_AI_INFERENCE) {
        Some(ADDR_AI_INFERENCE)
    } else if same_address(addr, &ADDR_AI_EMBEDDING) {
        Some(ADDR_AI_EMBEDDING)
    } else {
        None
    }
}

/// How an AI precompile call ends for the interpreter.
#[derive(Debug, Clone, Copy, PartialEq, Eq)]
pub enum AiCallStatus {
    /// Returned normally.
    Return,
    /// Reverted; the returndata is the reason.
    Revert,
    /// Ran out of gas.
    PrecompileOOG,
    /// Failed without a result.
    PrecompileError,
}

/// The interpreter-side result of an AI precompile call.
#[derive(Debug)]
pub struct AiCallOutcome {
    pub status: AiCallStatus,
    pub gas: GasMeter,
    pub output: Vec<u8>,
}

/// How a call to `addr` with `input_len` bytes of input and gas limit
/// `gas_limit` settles, given what the precompile produced (`None` when
/// nothing is registered there): the status, the gas left, and the
/// returndata.
///
/// - Success: the precompile's gas is charged and its output returned, or,
///   when the limit cannot cover it, the call runs out of gas.
/// - Revert: the canonical required gas of the address is charged and the
///   reason (UTF-8) is returned, or, when the limit cannot cover it, the call
///   runs out of gas. At an address without a required gas nothing is
///   charged.
/// - Error, or no precompile: the call fails and nothing is charged.
pub open spec fn spec_settle_ai_call(
    addr: [u8; 20],
    input_len: int,
    result: Option<PrecompileOutcome>,
    gas_limit: u64,
) -> (AiCallStatus, u64, Seq<u8>) {
    match result {
        Some(PrecompileOutcome::Success { output, gas_used }) => if gas_used <= gas_limit {
            (AiCallStatus::Return, (gas_limit - gas_used) as u64, output)
        } else {
            (AiCallStatus::PrecompileOOG, gas_limit, Seq::empty())
        },
        Some(PrecompileOutcome::Revert { reason }) => match spec_required_gas(addr, input_len) {
            Some(required) => if required <= gas_limit {
                (AiCallStatus::Revert, (gas_limit - required) as u64, encode_utf8(reason))
            } else {
                (AiCallStatus::PrecompileOOG, gas_limit, Seq::empty())
            },
            None => (AiCallStatus::Revert, gas_limit, encode_utf8(reason)),
        },
        _ => (AiCallStatus::PrecompileError, gas_limit, Seq::empty()),
    }
}

/// The view of an optional precompile result.
pub open spec fn result_view(result: Option<PrecompileResult>) -> Option<PrecompileOutcome> {
    match result {
        Some(r) => Some(r@),
        None => None,
    }
}

fn utf8_bytes(s: &String) -> (b: Vec<u8>)
    ensures
        b@ == encode_utf8(s@),
{
    slice_to_vec(s.as_str().as_bytes())
}

/// Settle an AI precompile call with the interpreter: charge its gas against
/// `gas_limit` and shape its status and returndata.
pub fn settle_ai_call(
    addr: &[u8; 20],
    input_len: usize,
    result: Option<PrecompileResult>,
    gas_limit: u64,
) -> (o: AiCallOutcome)
    ensures
        o.gas.spec_limit() == gas_limit,
        (o.status, o.gas.spec_remaining(), o.output@) == spec_settle_ai_call(
            *addr,
            input_len as int,
            result_view(result),
            gas_limit,
        ),
{
    let mut gas = GasMeter::new(gas_limit);
    match result {
        Some(PrecompileResult::Success { output, gas_used }) => {
            if gas.record_cost(gas_used) {
                AiCallOutcome { status: AiCallStatus::Return, gas, output }
            } else {
                AiCallOutcome { status: AiCallStatus::PrecompileOOG, gas, output: Vec::new() }
            }
        },
        Some(PrecompileResult::Revert { reason }) => {
            match required_gas(addr, input_len) {
                Some(required) => {
                    if gas.record_cost(required) {
                        AiCallOutcome {
                            status: AiCallStatus::Revert,
                            gas,
                            output: utf8_bytes(&reason),
                        }
                    } else {
                        AiCallOutcome {
                            status: AiCallStatus::PrecompileOOG,
                            gas,
                            output: Vec::new(),
                        }
                    }
                },
                None => AiCallOutcome {
                    status: AiCallStatus::Revert,
                    gas,
                    output: utf8_bytes(&reason),
                },
            }
        },
        _ => AiCallOutcome { status: AiCallStatus::PrecompileError, gas, output: Vec::new() },
    }
}

} // verus!
