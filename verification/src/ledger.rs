//! The ledger as mathematics: a map from account ids to balances, and what each
//! operation makes of it.

use vstd::prelude::*;
use crate::domain::{
    AccountId, DomainError, DomainErrorView, negative_amount_reason, negative_balance_reason,
    same_account_reason,
};

verus! {

/// No account of `ledger` holds less than nothing.
pub open spec fn solvent(ledger: Map<AccountId, int>) -> bool {
    forall|id: AccountId| ledger.contains_key(id) ==> #[trigger] ledger[id] >= 0
}

/// Opening account `id` with `initial_balance`: the new ledger, or why it was refused.
/// A negative balance is reported before a taken id.
pub open spec fn created(ledger: Map<AccountId, int>, id: AccountId, initial_balance: int) -> Result<
    Map<AccountId, int>,
    DomainErrorView,
> {
    if initial_balance < 0 {
        Err(DomainErrorView::InvalidAmount(negative_balance_reason()))
    } else if ledger.contains_key(id) {
        Err(DomainErrorView::DuplicateAccount)
    } else {
        Ok(ledger.insert(id, initial_balance))
    }
}

/// Paying `amount` into account `id`: the new ledger, or why it was refused.
/// A missing account is reported before a negative amount.
pub open spec fn deposited(ledger: Map<AccountId, int>, id: AccountId, amount: int) -> Result<
    Map<AccountId, int>,
    DomainErrorView,
> {
    if !ledger.contains_key(id) {
        Err(DomainErrorView::AccountNotFound)
    } else if amount < 0 {
        Err(DomainErrorView::InvalidAmount(negative_amount_reason()))
    } else {
        Ok(ledger.insert(id, ledger[id] + amount))
    }
}

/// Taking `amount` out of account `id`: the new ledger, or why it was refused.
/// A missing account is reported first, then a negative amount, then a balance too small.
pub open spec fn withdrawn(ledger: Map<AccountId, int>, id: AccountId, amount: int) -> Result<
    Map<AccountId, int>,
    DomainErrorView,
> {
    if !ledger.contains_key(id) {
        Err(DomainErrorView::AccountNotFound)
    } else if amount < 0 {
        Err(DomainErrorView::InvalidAmount(negative_amount_reason()))
    } else if ledger[id] < amount {
        Err(DomainErrorView::InsufficientFunds)
    } else {
        Ok(ledger.insert(id, ledger[id] - amount))
    }
}

/// Moving `amount` from account `from` to account `to`: the new ledger, or why it was
/// refused. The request's shape is judged first (one account named twice, then a negative
/// amount), then the accounts' existence, then the payer's balance.
pub open spec fn transferred(
    ledger: Map<AccountId, int>,
    from: AccountId,
    to: AccountId,
    amount: int,
) -> Result<Map<AccountId, int>, DomainErrorView> {
    if from == to {
        Err(DomainErrorView::InvalidAmount(same_account_reason()))
    } else if amount < 0 {
        Err(DomainErrorView::InvalidAmount(negative_amount_reason()))
    } else if !ledger.contains_key(from) || !ledger.contains_key(to) {
        Err(DomainErrorView::AccountNotFound)
    } else if ledger[from] < amount {
        Err(DomainErrorView::InsufficientFunds)
    } else {
        Ok(ledger.insert(from, ledger[from] - amount).insert(to, ledger[to] + amount))
    }
}

/// An operation for which the model gives `outcome` has been carried out faithfully: it
/// reported success exactly where the model has a new ledger, which is then the ledger
/// `after`; where the model refuses, it reported that refusal and left the ledger as it was
/// `before`.
pub open spec fn carried_out<T>(
    outcome: Result<Map<AccountId, int>, DomainErrorView>,
    before: Map<AccountId, int>,
    after: Map<AccountId, int>,
    result: Result<T, DomainError>,
) -> bool {
    match result {
        Ok(_) => outcome == Ok::<Map<AccountId, int>, DomainErrorView>(after),
        Err(e) => outcome == Err::<Map<AccountId, int>, DomainErrorView>(e@) && after == before,
    }
}

/// The ledger once an operation with `outcome` is over: the new ledger where it succeeded,
/// the ledger as it was `before` where it was refused.
pub open spec fn settled(
    outcome: Result<Map<AccountId, int>, DomainErrorView>,
    before: Map<AccountId, int>,
) -> Map<AccountId, int> {
    match outcome {
        Ok(after) => after,
        Err(_) => before,
    }
}

/// The ledger after `count` withdrawals of `amount` from account `id`, one after another,
/// each granted or refused on what the one before left.
pub open spec fn withdrawn_repeatedly(
    ledger: Map<AccountId, int>,
    id: AccountId,
    amount: int,
    count: nat,
) -> Map<AccountId, int>
    decreases count,
{
    if count == 0 {
        ledger
    } else {
        let before = withdrawn_repeatedly(ledger, id, amount, (count - 1) as nat);
        settled(withdrawn(before, id, amount), before)
    }
}

/// The ledger after the transfers `steps`, each given as payer, payee and amount, one after
/// another, each granted or refused on what the one before left.
pub open spec fn transferred_in_turn(
    ledger: Map<AccountId, int>,
    steps: Seq<(AccountId, AccountId, int)>,
) -> Map<AccountId, int>
    decreases steps.len(),
{
    if steps.len() == 0 {
        ledger
    } else {
        let before = transferred_in_turn(ledger, steps.drop_last());
        let step = steps.last();
        settled(transferred(before, step.0, step.1, step.2), before)
    }
}

/// The transfer `step` (payer, payee, amount) goes between accounts `a` and `b`, in either
/// direction.
pub open spec fn joins(step: (AccountId, AccountId, int), a: AccountId, b: AccountId) -> bool {
    (step.0 == a && step.1 == b) || (step.0 == b && step.1 == a)
}

/// A solvent ledger stays solvent under every operation that succeeds: no balance ever
/// goes below zero.
pub proof fn lemma_solvency_kept(
    ledger: Map<AccountId, int>,
    id: AccountId,
    other: AccountId,
    amount: int,
)
    requires
        solvent(ledger),
    ensures
        solvent(settled(created(ledger, id, amount), ledger)),
        solvent(settled(deposited(ledger, id, amount), ledger)),
        solvent(settled(withdrawn(ledger, id, amount), ledger)),
        solvent(settled(transferred(ledger, id, other, amount), ledger)),
{
}

/// An id, once given to an account, stays with the ledger under every operation.
pub proof fn lemma_accounts_stay(
    ledger: Map<AccountId, int>,
    kept: AccountId,
    id: AccountId,
    other: AccountId,
    amount: int,
)
    requires
        ledger.contains_key(kept),
    ensures
        settled(created(ledger, id, amount), ledger).contains_key(kept),
        settled(deposited(ledger, id, amount), ledger).contains_key(kept),
        settled(withdrawn(ledger, id, amount), ledger).contains_key(kept),
        settled(transferred(ledger, id, other, amount), ledger).contains_key(kept),
{
}

/// Once account `id` has been opened, opening it again with any balance that is not
/// negative is refused as a duplicate, and the account stays as it was opened.
pub proof fn lemma_second_creation_refused(
    ledger: Map<AccountId, int>,
    id: AccountId,
    first_balance: int,
    second_balance: int,
)
    requires
        created(ledger, id, first_balance) is Ok,
        second_balance >= 0,
    ensures
        created(created(ledger, id, first_balance)->Ok_0, id, second_balance) == Err::<
            Map<AccountId, int>,
            DomainErrorView,
        >(DomainErrorView::DuplicateAccount),
        created(ledger, id, first_balance)->Ok_0[id] == first_balance,
{
}

/// Paying nothing into an account that exists succeeds and leaves the ledger as it was.
pub proof fn lemma_deposit_of_nothing(ledger: Map<AccountId, int>, id: AccountId)
    requires
        ledger.contains_key(id),
    ensures
        deposited(ledger, id, 0) == Ok::<Map<AccountId, int>, DomainErrorView>(ledger),
{
    assert(ledger.insert(id, ledger[id] + 0) =~= ledger);
}

/// Of any number of withdrawals of an account's whole balance, made one after another in
/// whatever order, the first is granted and empties the account; every later one is
/// refused for insufficient funds and the balance stays at zero. `made` counts the
/// withdrawals already made.
pub proof fn lemma_whole_balance_withdrawn_once(
    ledger: Map<AccountId, int>,
    id: AccountId,
    balance: int,
    made: nat,
)
    requires
        ledger.contains_key(id),
        ledger[id] == balance,
        balance > 0,
        made >= 1,
    ensures
        withdrawn(ledger, id, balance) is Ok,
        withdrawn_repeatedly(ledger, id, balance, made).contains_key(id),
        withdrawn_repeatedly(ledger, id, balance, made)[id] == 0,
        withdrawn(withdrawn_repeatedly(ledger, id, balance, made), id, balance) == Err::<
            Map<AccountId, int>,
            DomainErrorView,
        >(DomainErrorView::InsufficientFunds),
    decreases made,
{
    if made == 1 {
        assert(withdrawn_repeatedly(ledger, id, balance, 0) == ledger);
    } else {
        lemma_whole_balance_withdrawn_once(ledger, id, balance, (made - 1) as nat);
    }
}

/// A transfer between two accounts, granted or refused, leaves the sum of their balances
/// as it was.
pub proof fn lemma_transfer_keeps_sum(
    ledger: Map<AccountId, int>,
    from: AccountId,
    to: AccountId,
    amount: int,
)
    ensures
        settled(transferred(ledger, from, to, amount), ledger)[from] + settled(
            transferred(ledger, from, to, amount),
            ledger,
        )[to] == ledger[from] + ledger[to],
{
}

/// Any run of transfers between accounts `a` and `b`, in either direction and of any
/// amounts, leaves the sum of the two balances as it was.
pub proof fn lemma_transfers_keep_sum(
    ledger: Map<AccountId, int>,
    a: AccountId,
    b: AccountId,
    steps: Seq<(AccountId, AccountId, int)>,
)
    requires
        forall|i: int| 0 <= i < steps.len() ==> joins(#[trigger] steps[i], a, b),
    ensures
        transferred_in_turn(ledger, steps)[a] + transferred_in_turn(ledger, steps)[b] == ledger[a]
            + ledger[b],
    decreases steps.len(),
{
    if steps.len() > 0 {
        let before = transferred_in_turn(ledger, steps.drop_last());
        let step = steps.last();
        lemma_transfers_keep_sum(ledger, a, b, steps.drop_last());
        assert(step == steps[steps.len() - 1]);
        lemma_transfer_keeps_sum(before, step.0, step.1, step.2);
    }
}

} // verus!
