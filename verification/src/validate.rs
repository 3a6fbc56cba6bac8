//! The parameter validator.
//!
//! Every cross-field constraint of the configuration model is re-checked
//! here, before any remote action is taken; the command-line layer may
//! enforce the same rules, but the model does not rely on it.

use vstd::prelude::*;

use crate::config::{Config, Mmfs};
use crate::errors::ConfigError;

verus! {

/// Whether a memory backend (a memory-management filesystem or the kernel
/// tiering feature) is selected.
pub open spec fn spec_backend_selected(c: Config) -> bool {
    c.fbmm is Some || c.tpp
}

/// Every mutual-exclusion and prerequisite constraint of a configuration.
pub open spec fn spec_valid_config(c: Config) -> bool {
    &&& !(c.fbmm is Some && c.tpp)
    &&& !(spec_backend_selected(c) && c.hugetlb is Some)
    &&& !(spec_backend_selected(c) && c.thp_temporal_zero)
    &&& !(c.thp_temporal_zero && c.disable_thp)
    &&& c.fbmm == Some(Mmfs::TieredMmfs) ==> c.dram_region is Some
    &&& c.fbmm == Some(Mmfs::TieredMmfs) ==> c.pmem_region is Some
    &&& c.tpp ==> c.dram_region is Some
    &&& c.node_weights@.len() > 0 ==> c.fbmm == Some(Mmfs::BandwidthMmfs)
}

/// Check every constraint, reporting the first violation in a fixed order.
pub fn validate(c: &Config) -> (r: Result<(), ConfigError>)
    ensures
        r is Ok <==> spec_valid_config(*c),
        r == Err::<(), ConfigError>(ConfigError::BackendConflict) <==> c.fbmm is Some && c.tpp,
        r == Err::<(), ConfigError>(ConfigError::HugetlbWithBackend) <==> !(c.fbmm is Some
            && c.tpp) && spec_backend_selected(*c) && c.hugetlb is Some,
        r == Err::<(), ConfigError>(ConfigError::TemporalZeroWithBackend) <==> !(c.fbmm is Some
            && c.tpp) && !(spec_backend_selected(*c) && c.hugetlb is Some)
            && spec_backend_selected(*c) && c.thp_temporal_zero,
        r == Err::<(), ConfigError>(ConfigError::TemporalZeroWithoutThp) <==> !(
        spec_backend_selected(*c) && (c.hugetlb is Some || c.thp_temporal_zero)) && !(c.fbmm
            is Some && c.tpp) && c.thp_temporal_zero && c.disable_thp,
        r == Err::<(), ConfigError>(ConfigError::TieredNeedsDram) ==> c.fbmm == Some(
            Mmfs::TieredMmfs,
        ) && c.dram_region is None,
        r == Err::<(), ConfigError>(ConfigError::TieredNeedsPmem) ==> c.fbmm == Some(
            Mmfs::TieredMmfs,
        ) && c.pmem_region is None,
        r == Err::<(), ConfigError>(ConfigError::TppNeedsDram) ==> c.tpp && c.dram_region
            is None,
        r == Err::<(), ConfigError>(ConfigError::WeightsNeedBandwidthFs) ==> c.node_weights@.len()
            > 0 && c.fbmm != Some(Mmfs::BandwidthMmfs),
{
    let backend = c.fbmm.is_some() || c.tpp;
    if c.fbmm.is_some() && c.tpp {
        return Err(ConfigError::BackendConflict);
    }
    if backend && c.hugetlb.is_some() {
        return Err(ConfigError::HugetlbWithBackend);
    }
    if backend && c.thp_temporal_zero {
        return Err(ConfigError::TemporalZeroWithBackend);
    }
    if c.thp_temporal_zero && c.disable_thp {
        return Err(ConfigError::TemporalZeroWithoutThp);
    }
    let tiered = match c.fbmm {
        Some(Mmfs::TieredMmfs) => true,
        _ => false,
    };
    if tiered && c.dram_region.is_none() {
        return Err(ConfigError::TieredNeedsDram);
    }
    if tiered && c.pmem_region.is_none() {
        return Err(ConfigError::TieredNeedsPmem);
    }
    if c.tpp && c.dram_region.is_none() {
        return Err(ConfigError::TppNeedsDram);
    }
    let bandwidth = match c.fbmm {
        Some(Mmfs::BandwidthMmfs) => true,
        _ => false,
    };
    if c.node_weights.len() > 0 && !bandwidth {
        return Err(ConfigError::WeightsNeedBandwidthFs);
    }
    Ok(())
}

/// With the tiering feature selected, a huge-page reservation or the
/// temporal-zeroing optimization makes the configuration invalid.
pub proof fn lemma_tiering_excludes_hugetlb_and_temporal_zero(c: Config)
    requires
        c.tpp,
        c.hugetlb is Some || c.thp_temporal_zero,
    ensures
        !spec_valid_config(c),
{
}

} // verus!
