//! The account ledger: balances keyed by participant, and the operations
//! that read and change them.
//!
//! Accounts are kept in a fixed order: that in which they were handed over,
//! then that in which they were opened. An account is found by its
//! identifier, which is unique, or by its display name, which need not be:
//! where several accounts carry one name, the first of them is meant.

use crate::decimal::{Decimal, Quantity};
use crate::occurrence::{lemma_first_occurrence, lemma_no_occurrence, lemma_occurrence_facts};
use vstd::prelude::*;

verus! {

/// Why a ledger operation changed nothing.
#[derive(Clone, Copy, Debug, PartialEq, Eq, Structural)]
pub enum LedgerError {
    /// No account carries the name.
    NotFound,
    /// The sender has no account or too little in it, or no account carries
    /// the recipient's name. The cases are not told apart.
    InsufficientFundsOrUnknownRecipient,
}

/// One account.
#[derive(Clone, Debug)]
pub struct Account {
    /// The participant's stable key.
    pub identifier: String,
    /// The display name under which the account was opened.
    pub name: String,
    /// What the account holds.
    pub balance: Decimal,
}

/// What an `Account` stands for.
pub struct AccountView {
    pub identifier: Seq<char>,
    pub name: Seq<char>,
    pub balance: Quantity,
}

impl View for Account {
    type V = AccountView;

    open spec fn view(&self) -> AccountView {
        AccountView { identifier: self.identifier@, name: self.name@, balance: self.balance@ }
    }
}

/// The identifiers of the accounts, in ledger order.
pub open spec fn identifiers(l: Seq<AccountView>) -> Seq<Seq<char>> {
    l.map_values(|a: AccountView| a.identifier)
}

/// The display names of the accounts, in ledger order.
pub open spec fn names(l: Seq<AccountView>) -> Seq<Seq<char>> {
    l.map_values(|a: AccountView| a.name)
}

/// The position of the account with the given identifier.
pub open spec fn account_of(l: Seq<AccountView>, identifier: Seq<char>) -> Option<int> {
    identifiers(l).index_of_first(identifier)
}

/// The position of the account that a display name means: the first one,
/// in ledger order, that carries it.
pub open spec fn account_named(l: Seq<AccountView>, name: Seq<char>) -> Option<int> {
    names(l).index_of_first(name)
}

/// A ledger in which no identifier occurs twice and every balance has a
/// scale in range.
pub open spec fn well_formed(l: Seq<AccountView>) -> bool {
    &&& forall|i: int, j: int| 0 <= i < j < l.len() ==> l[i].identifier != l[j].identifier
    &&& forall|i: int| 0 <= i < l.len() ==> (#[trigger] l[i]).balance.in_range()
}

/// The accounts by their views.
pub open spec fn account_views(accounts: Seq<Account>) -> Seq<AccountView> {
    accounts.map_values(|a: Account| a@)
}

/// The ledger with `amount` added to the balance at position `i`.
pub open spec fn credited(l: Seq<AccountView>, i: int, amount: Quantity) -> Seq<AccountView>
    recommends
        0 <= i < l.len(),
{
    l.update(i, AccountView { balance: l[i].balance.plus(amount), ..l[i] })
}

/// The ledger with `amount` taken from the balance at position `i`.
pub open spec fn debited(l: Seq<AccountView>, i: int, amount: Quantity) -> Seq<AccountView>
    recommends
        0 <= i < l.len(),
{
    l.update(i, AccountView { balance: l[i].balance.minus(amount), ..l[i] })
}

/// The ledger after `identifier` has asked for an account: unchanged where
/// one exists, else with a new account of balance zero at the end.
pub open spec fn ensured(l: Seq<AccountView>, identifier: Seq<char>, name: Seq<char>) -> Seq<
    AccountView,
> {
    if account_of(l, identifier) is Some {
        l
    } else {
        l.push(AccountView { identifier, name, balance: Quantity { unscaled: 0, scale: 0 } })
    }
}

/// The balance that `identifier` holds once it has an account.
pub open spec fn ensured_balance(l: Seq<AccountView>, identifier: Seq<char>) -> Quantity {
    match account_of(l, identifier) {
        Some(i) => l[i].balance,
        None => Quantity { unscaled: 0, scale: 0 },
    }
}

/// Whether a transfer goes through: the sender has an account that holds at
/// least `amount`, and some account carries the recipient's name.
pub open spec fn transfer_admitted(
    l: Seq<AccountView>,
    sender: Seq<char>,
    recipient: Seq<char>,
    amount: Quantity,
) -> bool {
    &&& account_of(l, sender) is Some
    &&& account_named(l, recipient) is Some
    &&& amount.at_most(l[account_of(l, sender).unwrap()].balance)
}

/// The ledger after a transfer was asked for: the recipient credited and
/// then the sender debited where the transfer is admitted, else unchanged.
pub open spec fn transferred(
    l: Seq<AccountView>,
    sender: Seq<char>,
    recipient: Seq<char>,
    amount: Quantity,
) -> Seq<AccountView> {
    if transfer_admitted(l, sender, recipient, amount) {
        debited(
            credited(l, account_named(l, recipient).unwrap(), amount),
            account_of(l, sender).unwrap(),
            amount,
        )
    } else {
        l
    }
}

/// The ledger after an issue was asked for: the named account credited
/// where it exists, else unchanged.
pub open spec fn issued(l: Seq<AccountView>, name: Seq<char>, amount: Quantity) -> Seq<
    AccountView,
> {
    match account_named(l, name) {
        Some(i) => credited(l, i, amount),
        None => l,
    }
}

/// The accounts and their balances.
#[derive(Debug)]
pub struct Ledger {
    accounts: Vec<Account>,
}

impl View for Ledger {
    type V = Seq<AccountView>;

    closed spec fn view(&self) -> Seq<AccountView> {
        account_views(self.accounts@)
    }
}

impl Ledger {
    /// Whether no identifier occurs twice and every balance is in range.
    /// Every ledger that this module hands out is well formed.
    pub open spec fn wf(&self) -> bool {
        well_formed(self@)
    }

    /// A ledger without accounts.
    pub fn new() -> (r: Ledger)
        ensures
            r@ == Seq::<AccountView>::empty(),
            r.wf(),
    {
        let r = Ledger { accounts: Vec::new() };
        assert(r@ =~= Seq::<AccountView>::empty());
        r
    }

    /// The ledger that holds the given accounts, in the given order; `None`
    /// where two of them share an identifier.
    pub fn restore(accounts: Vec<Account>) -> (r: Option<Ledger>)
        requires
            forall|i: int| 0 <= i < accounts@.len() ==> (#[trigger] accounts@[i]).balance.wf(),
        ensures
            r is Some <==> well_formed(account_views(accounts@)),
            r is Some ==> r.unwrap()@ == account_views(accounts@) && r.unwrap().wf(),
    {
        let ghost views = account_views(accounts@);
        let mut i: usize = 0;
        while i < accounts.len()
            invariant
                i <= accounts.len(),
                views == account_views(accounts@),
                forall|a: int, b: int| 0 <= a < b < i ==> views[a].identifier != views[b].identifier,
            decreases accounts.len() - i,
        {
            let mut j: usize = 0;
            while j < i
                invariant
                    j <= i < accounts.len(),
                    views == account_views(accounts@),
                    forall|a: int| 0 <= a < j ==> views[a].identifier != views[i as int].identifier,
                decreases i - j,
            {
                if accounts[j].identifier == accounts[i].identifier {
                    assert(views[j as int].identifier == views[i as int].identifier);
                    return None;
                }
                j += 1;
            }
            i += 1;
        }
        assert forall|k: int| 0 <= k < views.len() implies (#[trigger] views[k]).balance.in_range() by {
            assert(accounts@[k].balance.wf());
        }
        Some(Ledger { accounts })
    }

    /// How many accounts there are.
    pub fn len(&self) -> (n: usize)
        ensures
            n == self@.len(),
    {
        self.accounts.len()
    }

    /// The account at position `i`, in ledger order.
    pub fn account(&self, i: usize) -> (r: &Account)
        requires
            i < self@.len(),
        ensures
            r@ == self@[i as int],
    {
        &self.accounts[i]
    }

    /// The view, position by position.
    proof fn lemma_view(&self)
        ensures
            self@.len() == self.accounts@.len(),
            forall|i: int| 0 <= i < self@.len() ==> #[trigger] self@[i] == self.accounts@[i]@,
            forall|i: int|
                0 <= i < self@.len() ==> #[trigger] identifiers(self@)[i]
                    == self.accounts@[i].identifier@,
            forall|i: int|
                0 <= i < self@.len() ==> #[trigger] names(self@)[i] == self.accounts@[i].name@,
    {
    }

    fn position_of_identifier(&self, identifier: &str) -> (r: Option<usize>)
        ensures
            r is Some <==> account_of(self@, identifier@) is Some,
            r is Some ==> r.unwrap() == account_of(self@, identifier@).unwrap(),
            r is Some ==> r.unwrap() < self@.len(),
    {
        let wanted = identifier.to_owned();
        proof {
            self.lemma_view();
        }
        let mut i: usize = 0;
        while i < self.accounts.len()
            invariant
                i <= self.accounts.len(),
                wanted@ == identifier@,
                self@.len() == self.accounts@.len(),
                forall|j: int|
                    0 <= j < self@.len() ==> #[trigger] identifiers(self@)[j]
                        == self.accounts@[j].identifier@,
                forall|j: int| 0 <= j < i ==> identifiers(self@)[j] != identifier@,
            decreases self.accounts.len() - i,
        {
            if self.accounts[i].identifier == wanted {
                proof {
                    lemma_first_occurrence(identifiers(self@), identifier@, i as int);
                }
                return Some(i);
            }
            i += 1;
        }
        proof {
            lemma_no_occurrence(identifiers(self@), identifier@);
        }
        None
    }

    fn position_of_name(&self, name: &str) -> (r: Option<usize>)
        ensures
            r is Some <==> account_named(self@, name@) is Some,
            r is Some ==> r.unwrap() == account_named(self@, name@).unwrap(),
            r is Some ==> r.unwrap() < self@.len(),
    {
        let wanted = name.to_owned();
        proof {
            self.lemma_view();
        }
        let mut i: usize = 0;
        while i < self.accounts.len()
            invariant
                i <= self.accounts.len(),
                wanted@ == name@,
                self@.len() == self.accounts@.len(),
                forall|j: int|
                    0 <= j < self@.len() ==> #[trigger] names(self@)[j] == self.accounts@[j].name@,
                forall|j: int| 0 <= j < i ==> names(self@)[j] != name@,
            decreases self.accounts.len() - i,
        {
            if self.accounts[i].name == wanted {
                proof {
                    lemma_first_occurrence(names(self@), name@, i as int);
                }
                return Some(i);
            }
            i += 1;
        }
        proof {
            lemma_no_occurrence(names(self@), name@);
        }
        None
    }

    fn balance_at(&self, i: usize) -> (r: &Decimal)
        requires
            self.wf(),
            i < self@.len(),
        ensures
            r@ == self@[i as int].balance,
            r.wf(),
    {
        proof {
            self.lemma_view();
            assert(self@[i as int].balance.in_range());
        }
        &self.accounts[i].balance
    }

    fn set_balance(&mut self, i: usize, balance: Decimal)
        requires
            old(self).wf(),
            balance.wf(),
            i < old(self)@.len(),
        ensures
            final(self).wf(),
            final(self)@ == old(self)@.update(
                i as int,
                AccountView { balance: balance@, ..old(self)@[i as int] },
            ),
    {
        proof {
            self.lemma_view();
        }
        let account = Account {
            identifier: self.accounts[i].identifier.clone(),
            name: self.accounts[i].name.clone(),
            balance,
        };
        self.accounts.set(i, account);
        proof {
            self.lemma_view();
        }
        assert(self@ =~= old(self)@.update(
            i as int,
            AccountView { balance: balance@, ..old(self)@[i as int] },
        ));
        assert forall|j: int| 0 <= j < self@.len() implies (#[trigger] self@[j]).balance.in_range() by {
            assert(old(self)@[j].balance.in_range());
        }
    }

    /// Opens an account for `identifier` under `name` where it has none, with
    /// balance zero, and returns the balance that the account holds. An
    /// account that exists is left as it is, name and balance included.
    pub fn ensure_account(&mut self, identifier: &str, name: &str) -> (balance: Decimal)
        requires
            old(self).wf(),
        ensures
            final(self).wf(),
            final(self)@ == ensured(old(self)@, identifier@, name@),
            balance@ == ensured_balance(old(self)@, identifier@),
            balance.wf(),
    {
        proof {
            self.lemma_view();
        }
        match self.position_of_identifier(identifier) {
            Some(i) => self.balance_at(i).clone(),
            None => {
                proof {
                    lemma_occurrence_facts(identifiers(self@), identifier@);
                }
                let account = Account {
                    identifier: identifier.to_owned(),
                    name: name.to_owned(),
                    balance: Decimal::zero(),
                };
                self.accounts.push(account);
                proof {
                    self.lemma_view();
                }
                assert(self@ =~= old(self)@.push(account@));
                assert forall|j: int| 0 <= j < self@.len() implies (#[trigger] self@[j]).balance.in_range() by {
                    if j < old(self)@.len() {
                        assert(old(self)@[j].balance.in_range());
                    }
                }
                assert forall|j: int, k: int| 0 <= j < k < self@.len() implies self@[j].identifier
                    != self@[k].identifier by {
                    if k == old(self)@.len() {
                        assert(identifiers(old(self)@)[j] == old(self)@[j].identifier);
                    }
                }
                Decimal::zero()
            },
        }
    }

    /// The balance of the account that `name` means.
    pub fn lookup_balance_by_name(&self, name: &str) -> (r: Result<Decimal, LedgerError>)
        requires
            self.wf(),
        ensures
            match account_named(self@, name@) {
                Some(i) => r is Ok && r.unwrap()@ == self@[i].balance && r.unwrap().wf(),
                None => r is Err && r.unwrap_err() == LedgerError::NotFound,
            },
    {
        proof {
            self.lemma_view();
        }
        match self.position_of_name(name) {
            Some(i) => Ok(self.balance_at(i).clone()),
            None => Err(LedgerError::NotFound),
        }
    }

    /// Moves `amount` from the account of `sender`, found by identifier, to
    /// the account that `recipient` names. Nothing changes unless the sender
    /// has an account that holds at least `amount` and the recipient's name
    /// is known; then the recipient is credited and the sender debited.
    pub fn transfer(&mut self, sender: &str, recipient: &str, amount: &Decimal) -> (r: Result<
        (),
        LedgerError,
    >)
        requires
            old(self).wf(),
            amount.wf(),
        ensures
            final(self).wf(),
            final(self)@ == transferred(old(self)@, sender@, recipient@, amount@),
            r is Ok <==> transfer_admitted(old(self)@, sender@, recipient@, amount@),
            r is Err ==> r.unwrap_err() == LedgerError::InsufficientFundsOrUnknownRecipient,
    {
        proof {
            self.lemma_view();
        }
        let from = match self.position_of_identifier(sender) {
            Some(i) => i,
            None => {
                return Err(LedgerError::InsufficientFundsOrUnknownRecipient);
            },
        };
        let to = match self.position_of_name(recipient) {
            Some(i) => i,
            None => {
                return Err(LedgerError::InsufficientFundsOrUnknownRecipient);
            },
        };
        if !amount.at_most(self.balance_at(from)) {
            return Err(LedgerError::InsufficientFundsOrUnknownRecipient);
        }
        let raised = self.balance_at(to).plus(amount);
        self.set_balance(to, raised);
        let lowered = self.balance_at(from).minus(amount);
        self.set_balance(from, lowered);
        Ok(())
    }

    /// Credits `amount` to the account that `name` means and returns its new
    /// balance. No account is ever opened: where the name is unknown,
    /// nothing changes.
    pub fn issue(&mut self, name: &str, amount: &Decimal) -> (r: Result<Decimal, LedgerError>)
        requires
            old(self).wf(),
            amount.wf(),
        ensures
            final(self).wf(),
            final(self)@ == issued(old(self)@, name@, amount@),
            match account_named(old(self)@, name@) {
                Some(i) => r is Ok && r.unwrap()@ == old(self)@[i].balance.plus(amount@)
                    && r.unwrap().wf(),
                None => r is Err && r.unwrap_err() == LedgerError::NotFound,
            },
    {
        proof {
            self.lemma_view();
        }
        match self.position_of_name(name) {
            Some(i) => {
                let raised = self.balance_at(i).plus(amount);
                let balance = raised.clone();
                self.set_balance(i, raised);
                Ok(balance)
            },
            None => Err(LedgerError::NotFound),
        }
    }
}

} // verus!
