//! Error taxonomy of the experiment driver.
//!
//! Validation and parse failures are reported before any remote action is
//! taken; the allocator failure is reported while the execution plan is being
//! built.

use vstd::prelude::*;

verus! {

/// A raw command-line token could not be read as the declared kind of value.
#[derive(Clone, Copy, Debug, PartialEq, Eq, Structural)]
pub enum ParseError {
    /// The token is empty where a value was required.
    Empty,
    /// A character that is not a decimal digit stood where a number was
    /// expected.
    BadDigit,
    /// A node-weight token lacks the `:` between node id and weight.
    MissingSeparator,
    /// The number does not fit the declared integer type.
    Overflow,
    /// A proportion holds more fractional digits than the driver keeps.
    TooPrecise,
    /// A proportion lies outside the unit interval.
    OutOfRange,
    /// A kernel configuration option is not prefixed by `+` or `-`.
    BadPrefix,
    /// A kernel configuration name holds a character that is neither
    /// alphanumeric nor `_`.
    BadConfigChar,
}

/// The requested configuration values are mutually inconsistent.
#[derive(Clone, Copy, Debug, PartialEq, Eq, Structural)]
pub enum ConfigError {
    /// Both a memory-management filesystem and the tiering feature were
    /// selected; at most one memory backend may be active.
    BackendConflict,
    /// A huge-page reservation was requested beside a memory backend.
    HugetlbWithBackend,
    /// The temporal-zeroing optimization was requested beside a memory
    /// backend; it is defined only for the page-cache path.
    TemporalZeroWithBackend,
    /// The temporal-zeroing optimization was requested although transparent
    /// huge pages are disabled.
    TemporalZeroWithoutThp,
    /// The tiered filesystem needs a reserved DRAM region.
    TieredNeedsDram,
    /// The tiered filesystem needs a reserved PMEM region.
    TieredNeedsPmem,
    /// The tiering feature needs a reserved DRAM region.
    TppNeedsDram,
    /// Node weights are meaningful only for the bandwidth-aware filesystem.
    WeightsNeedBandwidthFs,
    /// A PMEM region was reserved without a DRAM region to anchor its
    /// default start.
    PmemNeedsDram,
}

/// The core allocator has no further eligible core to hand out.
#[derive(Clone, Copy, Debug, PartialEq, Eq, Structural)]
pub struct ExhaustedError;

} // verus!
