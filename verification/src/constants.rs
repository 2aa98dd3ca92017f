//! Fixed numbers of the farm.

use vstd::prelude::*;

verus! {

/// The whole, in hundredths of a percent.
pub const MAX_PERCENTAGE: u64 = 10_000;

/// What the issuance of a new token class costs, in the smallest unit of the
/// native asset.
pub const TOKEN_ISSUANCE_COST: u64 = 50_000_000_000_000_000;

/// Decimals of the share token.
pub const WAD_DECIMALS: usize = 18;

} // verus!
