//! The ledger's global accounting laws, over the whole population of
//! depositors of one vault.

use vstd::prelude::*;

use crate::records::Vault;

verus! {

/// The total value recorded across a population of per-depositor balances.
pub open spec fn sum_balances(s: Seq<u64>) -> int
    decreases s.len(),
{
    if s.len() == 0 {
        0
    } else {
        s[0] + sum_balances(s.drop_first())
    }
}

/// The books balance when the vault's aggregate equals the sum of every
/// depositor's recorded balance: no hidden value either way.
pub open spec fn books_balance(vault: Vault, users: Seq<u64>) -> bool {
    vault.balance == sum_balances(users)
}

/// The total of a population of unsigned balances is never negative.
pub proof fn lemma_sum_nonneg(s: Seq<u64>)
    ensures
        sum_balances(s) >= 0,
    decreases s.len(),
{
    if s.len() > 0 {
        lemma_sum_nonneg(s.drop_first());
    }
}

/// The total of a population in which nobody holds anything is zero.
pub proof fn lemma_sum_zero(s: Seq<u64>)
    requires
        forall|i: int| 0 <= i < s.len() ==> #[trigger] s[i] == 0,
    ensures
        sum_balances(s) == 0,
    decreases s.len(),
{
    if s.len() > 0 {
        lemma_sum_zero(s.drop_first());
    }
}

/// Law: a newly created vault balances its books. Creation records a zero
/// aggregate, and a population that has not deposited yet holds zero
/// entries, so the aggregate equals their sum from the start.
pub proof fn lemma_fresh_vault_books_balance(vault: Vault, users: Seq<u64>)
    requires
        vault.balance == 0,
        forall|i: int| 0 <= i < users.len() ==> #[trigger] users[i] == 0,
    ensures
        books_balance(vault, users),
{
    lemma_sum_zero(users);
}

/// Replacing one depositor's balance moves the total by exactly the
/// difference between the new and the old entry.
pub proof fn lemma_sum_update(s: Seq<u64>, i: int, v: u64)
    requires
        0 <= i < s.len(),
    ensures
        sum_balances(s.update(i, v)) == sum_balances(s) - s[i] + v,
    decreases s.len(),
{
    if i == 0 {
        assert(s.update(0, v).drop_first() =~= s.drop_first());
    } else {
        lemma_sum_update(s.drop_first(), i - 1, v);
        assert(s.update(i, v).drop_first() =~= s.drop_first().update(i - 1, v));
    }
}

/// No single entry exceeds the total of the whole population.
pub proof fn lemma_element_le_sum(s: Seq<u64>, i: int)
    requires
        0 <= i < s.len(),
    ensures
        s[i] <= sum_balances(s),
    decreases s.len(),
{
    if i == 0 {
        lemma_sum_nonneg(s.drop_first());
    } else {
        lemma_element_le_sum(s.drop_first(), i - 1);
    }
}

/// Law: a committed deposit keeps the books balanced. If the vault's
/// aggregate covered the whole population before, and one depositor's
/// entry and the aggregate are both credited by the same amount — exactly
/// what the deposit commit does — the aggregate covers the population
/// after.
pub proof fn lemma_deposit_keeps_books_balanced(
    v0: Vault,
    v1: Vault,
    users: Seq<u64>,
    i: int,
    amount: u64,
)
    requires
        books_balance(v0, users),
        0 <= i < users.len(),
        users[i] + amount <= u64::MAX,
        v1.balance == v0.balance + amount,
    ensures
        books_balance(v1, users.update(i, (users[i] + amount) as u64)),
{
    lemma_sum_update(users, i, (users[i] + amount) as u64);
}

/// Law: a committed withdrawal keeps the books balanced. If the vault's
/// aggregate covered the whole population before, and one depositor's
/// entry and the aggregate are both debited by the same net amount —
/// exactly what the withdraw commit does — the aggregate covers the
/// population after.
pub proof fn lemma_withdraw_keeps_books_balanced(
    v0: Vault,
    v1: Vault,
    users: Seq<u64>,
    i: int,
    net_amount: u64,
)
    requires
        books_balance(v0, users),
        0 <= i < users.len(),
        net_amount <= users[i],
        v1.balance == v0.balance - net_amount,
    ensures
        books_balance(v1, users.update(i, (users[i] - net_amount) as u64)),
{
    lemma_sum_update(users, i, (users[i] - net_amount) as u64);
}

/// Law: while the books balance, no depositor's recorded balance exceeds
/// the vault's aggregate (and, being unsigned, it is never negative).
pub proof fn lemma_user_within_vault(vault: Vault, users: Seq<u64>, i: int)
    requires
        books_balance(vault, users),
        0 <= i < users.len(),
    ensures
        0 <= users[i] <= vault.balance,
{
    lemma_element_le_sum(users, i);
}

} // verus!
