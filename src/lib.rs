//! Detection of the managed compute platform that the current process runs on,
//! from hardware identity strings and the presence of environment variables.

pub mod detector;
pub mod env_vars;
pub mod environment;
pub mod ranking;
pub mod smbios;
pub mod specificity;
pub mod text;

pub use detector::Detector;
pub use environment::{CloudProvider, ComputeEnvironment, ComputeEnvironmentIter};
pub use ranking::{
    catalog, detect_inner, detect_one_inner, rank, ranking_order, watched_env_vars,
};
pub use smbios::{Smbios, SmbiosPattern};
pub use specificity::{OrderingExt, Specificity};

use vstd::prelude::*;

verus! {

/// The maximum score of a platform over both kinds of evidence (`2^15`),
/// with a bit of headroom below `u16::MAX` so that sums cannot overflow.
pub const MAX_TOTAL_WEIGHTING: u16 = 32768;

/// The maximum score of one kind of evidence: SMBIOS strings, or environment
/// variables.
pub const MAX_INDIVIDUAL_WEIGHTING: u16 = MAX_TOTAL_WEIGHTING / 2;

} // verus!
