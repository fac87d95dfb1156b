//! The three ledger operations.
//!
//! Deposit and withdrawal each come in two halves, because the external
//! transfer collaborator acts between them: a check/plan half that only
//! reads the records and decides whether (and how much) to transfer, and a
//! commit half that the caller invokes once the collaborator has reported
//! the transfer complete. The commit half re-reads the records and rejects
//! without touching them whenever its conditions do not hold, so a failing
//! call never changes a balance.

use vstd::prelude::*;

use crate::records::{AccountId, UserVault, Vault, VaultError};
use vstd::arithmetic::div_mod::{
    lemma_div_is_ordered,
    lemma_div_multiples_vanish,
    lemma_div_pos_is_pos,
};
use vstd::arithmetic::mul::{
    lemma_mul_basics,
    lemma_mul_inequality,
    lemma_mul_is_commutative,
    lemma_mul_nonnegative,
};

verus! {

/// Whether crediting `amount` fits in both balances without overflow.
pub open spec fn deposit_fits(vault: Vault, user_vault: UserVault, amount: u64) -> bool {
    vault.balance + amount <= u64::MAX && user_vault.balance + amount <= u64::MAX
}

/// Whether `amount * fee` fits in 64 bits, so the fee can be computed at all.
pub open spec fn fee_mul_fits(amount: u64, fee: u64) -> bool {
    amount * fee <= u64::MAX
}

/// The withdrawal fee charged on a requested `amount`:
/// `amount * fee / 100`, truncated downward (the rounding favors the
/// depositor by at most one base unit per hundred).
pub open spec fn fee_amount_of(amount: u64, fee: u64) -> int {
    (amount * fee) / 100
}

/// What a withdrawal actually debits and pays out: the requested amount
/// less the truncated fee.
pub open spec fn net_amount_of(amount: u64, fee: u64) -> int {
    amount - fee_amount_of(amount, fee)
}

/// Law: for any requested amount under any whole-percent fee, the fee is
/// between zero and the amount, and so is the net — a withdrawal can never
/// charge more than was requested, nor pay out more.
pub proof fn lemma_fee_bounds(amount: u64, fee: u64)
    requires
        fee <= 100,
    ensures
        0 <= fee_amount_of(amount, fee) <= amount,
        0 <= net_amount_of(amount, fee) <= amount,
{
    lemma_mul_nonnegative(amount as int, fee as int);
    lemma_div_pos_is_pos(amount * fee, 100);
    lemma_mul_inequality(fee as int, 100, amount as int);
    lemma_mul_is_commutative(amount as int, fee as int);
    lemma_div_is_ordered(amount * fee, 100 * amount, 100);
    lemma_div_multiples_vanish(amount as int, 100);
}

/// Creates the vault record: zero aggregate balance, the given owner and
/// asset identities, and the given whole-percent withdrawal fee.
///
/// A fee above 100 is rejected and no record is produced. No transfer is
/// involved.
pub fn initialize(owner: AccountId, token_mint: AccountId, fee: u64) -> (r: Result<
    Vault,
    VaultError,
>)
    ensures
        fee <= 100 ==> (r matches Ok(v) && v.owner == owner && v.token_mint == token_mint
            && v.balance == 0 && v.fee == fee),
        fee > 100 ==> (r matches Err(e) && e == VaultError::FeeCalculationOverflow),
        r matches Ok(v) ==> v.wf(),
{
    if fee > 100 {
        return Err(VaultError::FeeCalculationOverflow);
    }
    Ok(
        Vault {
            owner,
            token_mint,
            balance: 0,
            fee,
        },
    )
}

/// The pre-transfer half of a deposit: decides, without touching either
/// record, whether the collaborator should move `amount` from the
/// depositor's holding (whose asset type is `source_mint`) into custody.
///
/// Succeeds, returning the amount to transfer, exactly when the source
/// asset matches the vault's and both balances can absorb the credit.
pub fn deposit_check(
    vault: &Vault,
    user_vault: &UserVault,
    source_mint: AccountId,
    amount: u64,
) -> (r: Result<u64, VaultError>)
    ensures
        source_mint != vault.token_mint ==> (r matches Err(e) && e
            == VaultError::InvalidTokenMint),
        source_mint == vault.token_mint && !deposit_fits(*vault, *user_vault, amount) ==> (
        r matches Err(e) && e == VaultError::FeeCalculationOverflow),
        source_mint == vault.token_mint && deposit_fits(*vault, *user_vault, amount) ==> (
        r matches Ok(a) && a == amount),
{
    if source_mint != vault.token_mint {
        return Err(VaultError::InvalidTokenMint);
    }
    if amount > u64::MAX - vault.balance || amount > u64::MAX - user_vault.balance {
        return Err(VaultError::FeeCalculationOverflow);
    }
    Ok(amount)
}

/// The commit half of a deposit, called once the collaborator has moved
/// `amount` into custody. Re-checks every condition against the records as
/// they now stand and credits both balances together; any rejection leaves
/// both records exactly as they were.
///
/// A deposit of zero is a legal no-op: it succeeds and changes nothing.
pub fn deposit(
    vault: &mut Vault,
    user_vault: &mut UserVault,
    source_mint: AccountId,
    amount: u64,
) -> (r: Result<(), VaultError>)
    ensures
        r is Err ==> *final(vault) == *old(vault) && *final(user_vault) == *old(user_vault),
        source_mint != old(vault).token_mint
            ==> (r matches Err(e) && e == VaultError::InvalidTokenMint),
        source_mint == old(vault).token_mint
            && !deposit_fits(*old(vault), *old(user_vault), amount)
            ==> (r matches Err(e) && e == VaultError::FeeCalculationOverflow),
        source_mint == old(vault).token_mint
            && deposit_fits(*old(vault), *old(user_vault), amount)
            ==> (r is Ok
                && final(vault).balance == old(vault).balance + amount
                && final(user_vault).balance == old(user_vault).balance + amount
                && final(vault).owner == old(vault).owner
                && final(vault).token_mint == old(vault).token_mint
                && final(vault).fee == old(vault).fee),
        source_mint == old(vault).token_mint && amount == 0
            ==> (r is Ok && *final(vault) == *old(vault)
                && *final(user_vault) == *old(user_vault)),
{
    if source_mint != vault.token_mint {
        return Err(VaultError::InvalidTokenMint);
    }
    if amount > u64::MAX - vault.balance || amount > u64::MAX - user_vault.balance {
        return Err(VaultError::FeeCalculationOverflow);
    }
    vault.balance = vault.balance + amount;
    user_vault.balance = user_vault.balance + amount;
    Ok(())
}

/// What a planned withdrawal will do: `fee_amount` stays behind as the
/// charge on the request, `net_amount` is what the collaborator must move
/// out of custody and what both balances are then debited by.
#[derive(Clone, Copy, PartialEq, Eq, Structural, Debug)]
pub struct WithdrawPlan {
    pub fee_amount: u64,
    pub net_amount: u64,
}

/// The pre-transfer half of a withdrawal: decides, without touching either
/// record, whether the collaborator should move the net amount out of
/// custody, and how the request splits into fee and net.
///
/// Fails with an overflow error when `amount * fee` cannot be computed in
/// 64 bits, and with an insufficient-balance error when the depositor's
/// recorded balance cannot cover the net amount.
pub fn withdraw_plan(vault: &Vault, user_vault: &UserVault, amount: u64) -> (r: Result<
    WithdrawPlan,
    VaultError,
>)
    requires
        vault.wf(),
    ensures
        !fee_mul_fits(amount, vault.fee) ==> (r matches Err(e) && e
            == VaultError::FeeCalculationOverflow),
        fee_mul_fits(amount, vault.fee) && user_vault.balance < net_amount_of(amount, vault.fee)
            ==> (r matches Err(e) && e == VaultError::InsufficientBalance),
        fee_mul_fits(amount, vault.fee) && user_vault.balance >= net_amount_of(amount, vault.fee)
            ==> (r matches Ok(p) && p.fee_amount == fee_amount_of(amount, vault.fee)
            && p.net_amount == net_amount_of(amount, vault.fee)),
        r matches Ok(p) ==> p.fee_amount <= amount && p.net_amount <= amount && p.net_amount
            <= user_vault.balance,
{
    let product = match amount.checked_mul(vault.fee) {
        Some(p) => p,
        None => {
            return Err(VaultError::FeeCalculationOverflow);
        },
    };
    proof {
        lemma_fee_bounds(amount, vault.fee);
    }
    let fee_amount: u64 = product / 100;
    let net_amount: u64 = amount - fee_amount;
    if user_vault.balance < net_amount {
        return Err(VaultError::InsufficientBalance);
    }
    Ok(WithdrawPlan { fee_amount, net_amount })
}

/// The commit half of a withdrawal, called once the collaborator has moved
/// the net amount out of custody under the owner's authority. Re-plans the
/// withdrawal against the records as they now stand and debits both
/// balances together; any rejection leaves both records exactly as they
/// were.
///
/// A withdrawal of zero is a legal no-op: it succeeds and changes nothing.
pub fn withdraw(vault: &mut Vault, user_vault: &mut UserVault, amount: u64) -> (r: Result<
    (),
    VaultError,
>)
    requires
        old(vault).wf(),
        old(user_vault).balance <= old(vault).balance,
    ensures
        r is Err ==> *final(vault) == *old(vault) && *final(user_vault) == *old(user_vault),
        !fee_mul_fits(amount, old(vault).fee)
            ==> (r matches Err(e) && e == VaultError::FeeCalculationOverflow),
        fee_mul_fits(amount, old(vault).fee)
            && old(user_vault).balance < net_amount_of(amount, old(vault).fee)
            ==> (r matches Err(e) && e == VaultError::InsufficientBalance),
        fee_mul_fits(amount, old(vault).fee)
            && old(user_vault).balance >= net_amount_of(amount, old(vault).fee)
            ==> (r is Ok
                && final(user_vault).balance
                    == old(user_vault).balance - net_amount_of(amount, old(vault).fee)
                && final(vault).balance
                    == old(vault).balance - net_amount_of(amount, old(vault).fee)
                && final(vault).owner == old(vault).owner
                && final(vault).token_mint == old(vault).token_mint
                && final(vault).fee == old(vault).fee),
        amount == 0
            ==> (r is Ok && *final(vault) == *old(vault)
                && *final(user_vault) == *old(user_vault)),
{
    let plan = match withdraw_plan(vault, user_vault, amount) {
        Ok(p) => p,
        Err(e) => {
            proof {
                lemma_mul_basics(old(vault).fee as int);
            }
            return Err(e);
        },
    };
    user_vault.balance = user_vault.balance - plan.net_amount;
    vault.balance = vault.balance - plan.net_amount;
    Ok(())
}

} // verus!
