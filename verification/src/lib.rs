//! A custodial balance ledger: one shared vault per asset type, a
//! per-depositor balance record, and three operations — initialize,
//! deposit, withdraw — whose accounting is verified. The movement of the
//! asset itself is delegated to an external transfer collaborator; the
//! caller performs that transfer between the check and the commit that
//! these modules provide.

pub mod laws;
pub mod ops;
pub mod records;
