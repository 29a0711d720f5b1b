//! The integer side of compute-job pricing: resource kinds, quality tiers,
//! the wei price band, and the checks that reject a quote before any
//! floating-point market dynamics run.

use vstd::prelude::*;
use vstd::string::StringExecFns;

verus! {

/// One HANZO in wei (18 decimals).
pub const WEI_PER_HANZO: u128 = 1_000_000_000_000_000_000;

/// Price floor in wei (0.00001 HANZO per unit): a quote is never free.
pub const MIN_PRICE_WEI: u128 = WEI_PER_HANZO / 100_000;

/// Price ceiling in wei (0.01 HANZO per unit): a quote is never unbounded.
pub const MAX_PRICE_WEI: u128 = WEI_PER_HANZO / 100;

/// Marker substring of the error a kind mismatch produces.
pub const ERR_KIND_MISMATCH: &'static str = "resource kind mismatch";

/// Heterogeneous compute resource kinds. Each kind prices on its own market;
/// prices never cross between kinds.
#[derive(Debug, Clone, Copy, PartialEq, Eq, Hash, Structural)]
pub enum ResourceKind {
    /// CPU cores / vCPU-seconds.
    Cpu,
    /// GPU accelerators / GPU-seconds.
    Gpu,
    /// RAM (GB).
    Memory,
    /// Persistent storage (GB).
    Storage,
    /// Network egress (GB).
    Bandwidth,
}

impl ResourceKind {
    /// The kind's name as it appears in messages.
    pub open spec fn spec_name(self) -> Seq<char> {
        match self {
            ResourceKind::Cpu => "Cpu"@,
            ResourceKind::Gpu => "Gpu"@,
            ResourceKind::Memory => "Memory"@,
            ResourceKind::Storage => "Storage"@,
            ResourceKind::Bandwidth => "Bandwidth"@,
        }
    }

    /// The kind's name as it appears in messages.
    pub fn name(&self) -> (s: &'static str)
        ensures
            s@ == self.spec_name(),
    {
        match self {
            ResourceKind::Cpu => "Cpu",
            ResourceKind::Gpu => "Gpu",
            ResourceKind::Memory => "Memory",
            ResourceKind::Storage => "Storage",
            ResourceKind::Bandwidth => "Bandwidth",
        }
    }
}

/// Quality / privacy tier. Tighter isolation earns a higher multiplier.
#[derive(Debug, Clone, Copy, PartialEq, Eq, PartialOrd, Ord, Hash, Structural)]
pub enum QualityTier {
    /// Open, no attestation. 1.0x.
    Open,
    /// Encrypted at rest. 1.2x.
    AtRest,
    /// CPU TEE (SGX/SEV). 1.5x.
    CpuTee,
    /// GPU TEE (H100 CC). 1.8x.
    GpuTee,
    /// TEE-I/O (Blackwell). 2.0x.
    TeeIo,
}

impl Default for QualityTier {
    fn default() -> (t: Self)
        ensures
            t == QualityTier::Open,
    {
        QualityTier::Open
    }
}

impl QualityTier {
    /// Position of the tier, from the most open to the most isolated.
    pub open spec fn rank(self) -> int {
        match self {
            QualityTier::Open => 0,
            QualityTier::AtRest => 1,
            QualityTier::CpuTee => 2,
            QualityTier::GpuTee => 3,
            QualityTier::TeeIo => 4,
        }
    }

    /// The tier multiplier in tenths: 1.0x, 1.2x, 1.5x, 1.8x, 2.0x.
    pub open spec fn spec_multiplier_tenths(self) -> u32 {
        match self {
            QualityTier::Open => 10,
            QualityTier::AtRest => 12,
            QualityTier::CpuTee => 15,
            QualityTier::GpuTee => 18,
            QualityTier::TeeIo => 20,
        }
    }

    /// The tier multiplier in tenths (the price scales by this over ten).
    pub fn multiplier_tenths(self) -> (m: u32)
        ensures
            m == self.spec_multiplier_tenths(),
    {
        match self {
            QualityTier::Open => 10,
            QualityTier::AtRest => 12,
            QualityTier::CpuTee => 15,
            QualityTier::GpuTee => 18,
            QualityTier::TeeIo => 20,
        }
    }
}

/// A more isolated tier always carries a strictly higher multiplier, and
/// every multiplier is at least 1.0x.
pub proof fn lemma_tier_multiplier_increasing(lower: QualityTier, higher: QualityTier)
    requires
        lower.rank() < higher.rank(),
    ensures
        lower.spec_multiplier_tenths() < higher.spec_multiplier_tenths(),
        lower.spec_multiplier_tenths() >= 10,
{
}

/// `wei` lies in the price band.
pub open spec fn in_band(wei: u128) -> bool {
    MIN_PRICE_WEI <= wei <= MAX_PRICE_WEI
}

/// `wei` clamped to the price band.
pub open spec fn spec_clamp_wei(wei: u128) -> u128 {
    if wei < MIN_PRICE_WEI {
        MIN_PRICE_WEI
    } else if wei > MAX_PRICE_WEI {
        MAX_PRICE_WEI
    } else {
        wei
    }
}

/// A HANZO price in wei (18 decimals). Always in `[MIN_PRICE_WEI,
/// MAX_PRICE_WEI]`: a price is built only by [`HanzoPrice::clamped`].
#[derive(Debug, Clone, Copy, PartialEq, Eq, PartialOrd, Ord, Hash, Structural)]
pub struct HanzoPrice(u128);

impl HanzoPrice {
    #[verifier::type_invariant]
    closed spec fn within_band(self) -> bool {
        in_band(self.0)
    }

    /// The price in wei.
    pub closed spec fn value(self) -> u128 {
        self.0
    }

    /// Price in wei; always inside the price band.
    pub fn wei(self) -> (w: u128)
        ensures
            w == self.value(),
            in_band(w),
    {
        proof {
            use_type_invariant(&self);
        }
        self.0
    }

    /// The price of `wei`, clamped to `[MIN_PRICE_WEI, MAX_PRICE_WEI]`.
    pub fn clamped(wei: u128) -> (p: Self)
        ensures
            p.value() == spec_clamp_wei(wei),
            in_band(p.value()),
    {
        if wei < MIN_PRICE_WEI {
            HanzoPrice(MIN_PRICE_WEI)
        } else if wei > MAX_PRICE_WEI {
            HanzoPrice(MAX_PRICE_WEI)
        } else {
            HanzoPrice(wei)
        }
    }
}

/// Why a quote is refused before pricing.
#[derive(Debug, Clone, Copy, PartialEq, Eq, Structural)]
pub enum PriceRejection {
    /// The job and the market are for different resource kinds.
    KindMismatch { job: ResourceKind, market: ResourceKind },
    /// The market's base price is zero.
    ZeroBasePrice,
}

impl PriceRejection {
    /// The rejection's message.
    pub open spec fn spec_message(self) -> Seq<char> {
        match self {
            PriceRejection::KindMismatch { job, market } => ERR_KIND_MISMATCH@ + ": job is "@
                + job.spec_name() + " but market is "@ + market.spec_name(),
            PriceRejection::ZeroBasePrice => "market.base_price_wei must be > 0"@,
        }
    }

    /// The rejection's message; a kind mismatch's message starts with
    /// [`ERR_KIND_MISMATCH`].
    pub fn message(&self) -> (s: String)
        ensures
            s@ == self.spec_message(),
    {
        match self {
            PriceRejection::KindMismatch { job, market } => {
                let mut s = String::from_str(ERR_KIND_MISMATCH);
                s.append(": job is ");
                s.append(job.name());
                s.append(" but market is ");
                s.append(market.name());
                s
            },
            PriceRejection::ZeroBasePrice => String::from_str("market.base_price_wei must be > 0"),
        }
    }
}

/// A job is priced only against the market of its own resource kind.
pub fn check_kinds(job: ResourceKind, market: ResourceKind) -> (r: Result<(), PriceRejection>)
    ensures
        r is Ok <==> job == market,
        r is Err ==> r == Err::<(), PriceRejection>(PriceRejection::KindMismatch { job, market }),
{
    if job == market {
        Ok(())
    } else {
        Err(PriceRejection::KindMismatch { job, market })
    }
}

/// A market prices only around a non-zero base price.
pub fn check_base_price(base_price_wei: u128) -> (r: Result<(), PriceRejection>)
    ensures
        r is Ok <==> base_price_wei > 0,
        r is Err ==> r == Err::<(), PriceRejection>(PriceRejection::ZeroBasePrice),
{
    if base_price_wei == 0 {
        Err(PriceRejection::ZeroBasePrice)
    } else {
        Ok(())
    }
}

} // verus!
