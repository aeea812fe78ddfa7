//! Value types of the ledger and the errors its operations report.

use vstd::prelude::*;

verus! {

/// Identifies one account of the ledger.
pub type AccountId = u32;

/// Why an operation of the ledger was turned down.
#[derive(Debug, PartialEq, Eq)]
pub enum DomainError {
    /// A quantity was negative, or a transfer named one account twice; the text says which.
    InvalidAmount(String),
    /// The account holds less than was asked of it.
    InsufficientFunds,
    /// No account has the given id.
    AccountNotFound,
    /// An account with the given id exists already.
    DuplicateAccount,
}

/// The reason given when an account is opened with a negative balance.
pub open spec fn negative_balance_reason() -> Seq<char> {
    "Initial balance must be non-negative"@
}

/// The reason given when a negative quantity is offered as an amount.
pub open spec fn negative_amount_reason() -> Seq<char> {
    "Amount must be non-negative"@
}

/// The reason given when a transfer names the same account as source and destination.
pub open spec fn same_account_reason() -> Seq<char> {
    "Transfer must be between different accounts"@
}

/// What a `DomainError` says: the same variants, the reason as a sequence of characters.
pub enum DomainErrorView {
    InvalidAmount(Seq<char>),
    InsufficientFunds,
    AccountNotFound,
    DuplicateAccount,
}

impl View for DomainError {
    type V = DomainErrorView;

    open spec fn view(&self) -> DomainErrorView {
        match self {
            DomainError::InvalidAmount(reason) => DomainErrorView::InvalidAmount(reason@),
            DomainError::InsufficientFunds => DomainErrorView::InsufficientFunds,
            DomainError::AccountNotFound => DomainErrorView::AccountNotFound,
            DomainError::DuplicateAccount => DomainErrorView::DuplicateAccount,
        }
    }
}

/// A monetary quantity that is never negative.
#[derive(Debug, Clone, Copy, PartialEq, Eq)]
pub struct Amount(i64);

impl Amount {
    #[verifier::type_invariant]
    spec fn nonnegative(&self) -> bool {
        self.0 >= 0
    }

    /// The quantity, in specifications.
    pub closed spec fn spec_value(&self) -> i64 {
        self.0
    }

    /// Accepts `value` exactly when it is not negative.
    pub fn new(value: i64) -> (r: Result<Amount, DomainError>)
        ensures
            match r {
                Ok(a) => value >= 0 && a.value() == value,
                Err(e) => value < 0 && e@ == DomainErrorView::InvalidAmount(negative_amount_reason()),
            },
    {
        if value < 0 {
            return Err(DomainError::InvalidAmount("Amount must be non-negative".to_owned()));
        }
        Ok(Amount(value))
    }

    /// The quantity this amount stands for.
    #[verifier::when_used_as_spec(spec_value)]
    pub fn value(&self) -> (v: i64)
        ensures
            v == self.spec_value(),
            v >= 0,
    {
        proof {
            use_type_invariant(self);
        }
        self.0
    }
}

/// One account: its id and the money it holds, which is never negative.
#[derive(Debug, Clone, Copy, PartialEq, Eq)]
pub struct Account {
    id: AccountId,
    balance: i64,
}

impl Account {
    #[verifier::type_invariant]
    spec fn solvent(&self) -> bool {
        self.balance >= 0
    }

    /// The account's id, in specifications.
    pub closed spec fn spec_id(&self) -> AccountId {
        self.id
    }

    /// The account's balance, in specifications.
    pub closed spec fn spec_balance(&self) -> i64 {
        self.balance
    }

    /// Opens an account holding `initial_balance`, which must not be negative.
    pub fn new(id: AccountId, initial_balance: i64) -> (r: Result<Account, DomainError>)
        ensures
            match r {
                Ok(a) => initial_balance >= 0 && a.id() == id && a.balance() == initial_balance,
                Err(e) => initial_balance < 0 && e@ == DomainErrorView::InvalidAmount(
                    negative_balance_reason(),
                ),
            },
    {
        if initial_balance < 0 {
            return Err(
                DomainError::InvalidAmount("Initial balance must be non-negative".to_owned()),
            );
        }
        Ok(Account { id, balance: initial_balance })
    }

    /// Adds `amount` to the balance.
    pub fn deposit(&mut self, amount: Amount)
        requires
            old(self).balance() + amount.value() <= i64::MAX,
        ensures
            final(self).id() == old(self).id(),
            final(self).balance() == old(self).balance() + amount.value(),
    {
        proof {
            use_type_invariant(&*self);
            use_type_invariant(&amount);
        }
        self.balance = self.balance + amount.0;
    }

    /// Takes `amount` from the balance, unless the account holds less than that.
    pub fn withdraw(&mut self, amount: Amount) -> (r: Result<(), DomainError>)
        ensures
            final(self).id() == old(self).id(),
            match r {
                Ok(_) => old(self).balance() >= amount.value() && final(self).balance() == old(
                    self,
                ).balance() - amount.value(),
                Err(e) => old(self).balance() < amount.value() && e@
                    == DomainErrorView::InsufficientFunds && final(self).balance() == old(
                    self,
                ).balance(),
            },
    {
        proof {
            use_type_invariant(&*self);
            use_type_invariant(&amount);
        }
        if self.balance < amount.0 {
            return Err(DomainError::InsufficientFunds);
        }
        self.balance = self.balance - amount.0;
        Ok(())
    }

    /// The account's id.
    #[verifier::when_used_as_spec(spec_id)]
    pub fn id(&self) -> (id: AccountId)
        ensures
            id == self.spec_id(),
    {
        self.id
    }

    /// The money the account holds.
    #[verifier::when_used_as_spec(spec_balance)]
    pub fn balance(&self) -> (balance: i64)
        ensures
            balance == self.spec_balance(),
            balance >= 0,
    {
        proof {
            use_type_invariant(self);
        }
        self.balance
    }
}

/// A request to move money between two different accounts.
#[derive(Debug, Clone, Copy, PartialEq, Eq)]
pub struct Transfer {
    from: AccountId,
    to: AccountId,
    amount: Amount,
}

impl Transfer {
    #[verifier::type_invariant]
    spec fn distinct_ends(&self) -> bool {
        self.from != self.to
    }

    /// The paying account, in specifications.
    pub closed spec fn spec_from(&self) -> AccountId {
        self.from
    }

    /// The receiving account, in specifications.
    pub closed spec fn spec_to(&self) -> AccountId {
        self.to
    }

    /// The amount moved, in specifications.
    pub closed spec fn spec_amount(&self) -> Amount {
        self.amount
    }

    /// Accepts the request exactly when the two accounts differ and `amount` is not negative.
    /// Naming one account twice is reported before a negative amount.
    pub fn new(from: AccountId, to: AccountId, amount: i64) -> (r: Result<Transfer, DomainError>)
        ensures
            match r {
                Ok(t) => from != to && amount >= 0 && t.from() == from && t.to() == to
                    && t.amount().value() == amount,
                Err(e) => if from == to {
                    e@ == DomainErrorView::InvalidAmount(same_account_reason())
                } else {
                    amount < 0 && e@ == DomainErrorView::InvalidAmount(negative_amount_reason())
                },
            },
    {
        if from == to {
            return Err(
                DomainError::InvalidAmount(
                    "Transfer must be between different accounts".to_owned(),
                ),
            );
        }
        match Amount::new(amount) {
            Ok(amount) => Ok(Transfer { from, to, amount }),
            Err(e) => Err(e),
        }
    }

    /// The paying account.
    #[verifier::when_used_as_spec(spec_from)]
    pub fn from(&self) -> (id: AccountId)
        ensures
            id == self.spec_from(),
            id != self.to(),
    {
        proof {
            use_type_invariant(self);
        }
        self.from
    }

    /// The receiving account.
    #[verifier::when_used_as_spec(spec_to)]
    pub fn to(&self) -> (id: AccountId)
        ensures
            id == self.spec_to(),
            id != self.from(),
    {
        proof {
            use_type_invariant(self);
        }
        self.to
    }

    /// The amount moved.
    #[verifier::when_used_as_spec(spec_amount)]
    pub fn amount(&self) -> (amount: Amount)
        ensures
            amount == self.spec_amount(),
    {
        self.amount
    }
}

} // verus!
