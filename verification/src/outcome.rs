//! What a precompile call produces, and the outside work that some calls need
//! before they can produce it.

use vstd::prelude::*;

verus! {

/// Outcome of a precompile execution.
#[derive(Debug, Clone, PartialEq, Eq)]
pub enum PrecompileResult {
    /// Successful execution with output bytes.
    Success {
        /// Raw output returned to the EVM caller.
        output: Vec<u8>,
        /// Gas consumed by this precompile call.
        gas_used: u64,
    },
    /// Execution reverted.
    Revert {
        /// Human-readable reason string.
        reason: String,
    },
    /// Execution encountered an unrecoverable error.
    Error {
        /// Human-readable error description.
        message: String,
    },
}

/// The mathematical value of a [`PrecompileResult`].
pub enum PrecompileOutcome {
    Success { output: Seq<u8>, gas_used: u64 },
    Revert { reason: Seq<char> },
    Error { message: Seq<char> },
}

impl View for PrecompileResult {
    type V = PrecompileOutcome;

    open spec fn view(&self) -> PrecompileOutcome {
        match self {
            PrecompileResult::Success { output, gas_used } => PrecompileOutcome::Success {
                output: output@,
                gas_used: *gas_used,
            },
            PrecompileResult::Revert { reason } => PrecompileOutcome::Revert { reason: reason@ },
            PrecompileResult::Error { message } => PrecompileOutcome::Error { message: message@ },
        }
    }
}

/// A post-quantum signature check that the call needs: verify `signature`
/// over `message` under `public_key` with ML-DSA (FIPS 204).
#[derive(Debug)]
pub struct MlDsaRequest {
    pub public_key: Vec<u8>,
    pub signature: Vec<u8>,
    pub message: Vec<u8>,
    /// Gas the call consumes once the check has run.
    pub gas_used: u64,
}

/// A Verkle committee-membership check that the call needs: run the Lux
/// precompile at `target` on `witness` with `gas_supplied` gas.
#[derive(Debug)]
pub struct QuasarRequest {
    /// The queried validator address (echoed in the output).
    pub validator: Vec<u8>,
    /// The committee root (echoed in the output).
    pub commitment: Vec<u8>,
    /// `commitment(32) ++ proof(32) ++ threshold flag(1)`.
    pub witness: Vec<u8>,
    /// Address of the Lux precompile, as hex text.
    pub target: &'static str,
    /// Gas handed to the Lux precompile.
    pub gas_supplied: u64,
}

/// A model call that the call needs: run `model` (empty = the engine default)
/// on `payload`.
#[derive(Debug)]
pub struct ModelRequest {
    pub model: String,
    pub payload: Vec<u8>,
    /// Gas the call consumes, computed from the input before the model runs.
    pub gas_used: u64,
}

/// Where a precompile call stands after its calldata has been decoded: either
/// finished, or waiting on one piece of outside work whose reply a `finish_*`
/// function turns into the result.
#[derive(Debug)]
pub enum PrecompileStep {
    Done(PrecompileResult),
    VerifyMlDsa(MlDsaRequest),
    QueryQuasar(QuasarRequest),
    Infer(ModelRequest),
    Embed(ModelRequest),
}

/// The mathematical value of a [`PrecompileStep`].
pub enum StepView {
    Done(PrecompileOutcome),
    VerifyMlDsa { public_key: Seq<u8>, signature: Seq<u8>, message: Seq<u8>, gas_used: u64 },
    QueryQuasar {
        validator: Seq<u8>,
        commitment: Seq<u8>,
        witness: Seq<u8>,
        target: Seq<char>,
        gas_supplied: u64,
    },
    Infer { model: Seq<char>, payload: Seq<u8>, gas_used: u64 },
    Embed { model: Seq<char>, payload: Seq<u8>, gas_used: u64 },
}

impl View for PrecompileStep {
    type V = StepView;

    open spec fn view(&self) -> StepView {
        match self {
            PrecompileStep::Done(r) => StepView::Done(r@),
            PrecompileStep::VerifyMlDsa(q) => StepView::VerifyMlDsa {
                public_key: q.public_key@,
                signature: q.signature@,
                message: q.message@,
                gas_used: q.gas_used,
            },
            PrecompileStep::QueryQuasar(q) => StepView::QueryQuasar {
                validator: q.validator@,
                commitment: q.commitment@,
                witness: q.witness@,
                target: q.target@,
                gas_supplied: q.gas_supplied,
            },
            PrecompileStep::Infer(q) => StepView::Infer {
                model: q.model@,
                payload: q.payload@,
                gas_used: q.gas_used,
            },
            PrecompileStep::Embed(q) => StepView::Embed {
                model: q.model@,
                payload: q.payload@,
                gas_used: q.gas_used,
            },
        }
    }
}

/// Why a model call failed, as the inference engine reports it.
#[derive(Debug, Clone, PartialEq, Eq)]
pub enum EngineFailure {
    /// No inference engine is installed on this node.
    NoInferenceEngine,
    /// No embedding engine is installed on this node.
    NoEmbeddingEngine,
    /// The named model is not loaded.
    ModelNotFound(String),
    /// Any other engine failure, with its description.
    Other(String),
}

/// The mathematical value of an [`EngineFailure`].
pub enum FailureView {
    NoInferenceEngine,
    NoEmbeddingEngine,
    ModelNotFound(Seq<char>),
    Other(Seq<char>),
}

impl View for EngineFailure {
    type V = FailureView;

    open spec fn view(&self) -> FailureView {
        match self {
            EngineFailure::NoInferenceEngine => FailureView::NoInferenceEngine,
            EngineFailure::NoEmbeddingEngine => FailureView::NoEmbeddingEngine,
            EngineFailure::ModelNotFound(id) => FailureView::ModelNotFound(id@),
            EngineFailure::Other(msg) => FailureView::Other(msg@),
        }
    }
}

/// What the Lux precompile returned for a committee query.
#[derive(Debug)]
pub struct QuasarReply {
    /// Output bytes.
    pub output: Vec<u8>,
    /// Gas left of the supplied gas.
    pub remaining_gas: u64,
}

} // verus!
