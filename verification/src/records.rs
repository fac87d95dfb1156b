//! The two persisted records of the ledger and its error taxonomy.

use vstd::prelude::*;

verus! {

/// A 32-byte account identity, held as four 64-bit words.
///
/// Identities are only ever compared for equality; the ledger never
/// inspects their contents.
#[derive(Clone, Copy, PartialEq, Eq, Structural, Debug)]
pub struct AccountId {
    pub w0: u64,
    pub w1: u64,
    pub w2: u64,
    pub w3: u64,
}

/// Why an operation was rejected. Every rejection leaves both records
/// exactly as they were.
#[derive(Clone, Copy, PartialEq, Eq, Structural, Debug)]
pub enum VaultError {
    /// A withdrawal's net amount exceeds the depositor's recorded balance.
    InsufficientBalance,
    /// A deposit's source asset does not match the vault's configured asset.
    InvalidTokenMint,
    /// The proposed fee exceeds 100, or a balance or fee computation would
    /// overflow.
    FeeCalculationOverflow,
}

/// The shared custodial record for one asset type: the aggregate balance of
/// all depositors and the withdrawal fee policy.
#[derive(Clone, Copy, PartialEq, Eq, Structural, Debug)]
pub struct Vault {
    /// The identity authorized to sign outbound transfers from custody.
    /// Set at creation, immutable thereafter.
    pub owner: AccountId,
    /// The identity of the one asset type this vault accepts.
    /// Set at creation, immutable thereafter.
    pub token_mint: AccountId,
    /// Total value held in custody, in the asset's base unit.
    pub balance: u64,
    /// Whole-percent withdrawal fee, in `[0, 100]`.
    pub fee: u64,
}

impl Vault {
    /// A vault is well formed when its fee is a whole percentage.
    /// Creation establishes this and no operation changes the fee.
    pub open spec fn wf(self) -> bool {
        self.fee <= 100
    }
}

/// One depositor's record of entitled balance within a vault.
#[derive(Clone, Copy, PartialEq, Eq, Structural, Debug)]
pub struct UserVault {
    /// The value this depositor may withdraw, net of fees already charged.
    pub balance: u64,
}

} // verus!
