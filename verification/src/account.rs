//! Accounts: the named lines of a journal.

use crate::ident::{fresh_id, is_id_text};
use vstd::prelude::*;

verus! {

/// The side on which an account's balance stands, or on which a change falls.
#[derive(Debug, Clone, Copy, PartialEq, Eq, Structural)]
pub enum BalanceType {
    Debit,
    Credit,
}

impl BalanceType {
    /// The side's name.
    pub fn as_str(self) -> (name: &'static str)
        ensures
            name@ == match self {
                BalanceType::Debit => "Debit"@,
                BalanceType::Credit => "Credit"@,
            },
    {
        match self {
            BalanceType::Debit => "Debit",
            BalanceType::Credit => "Credit",
        }
    }
}

/// What kind of thing an account records.
#[derive(Debug, Clone, Copy, PartialEq, Eq, Structural)]
pub enum AccountType {
    Liability,
    Equity,
    Asset,
}

/// An account as a value: its texts, its side and kind, and how many times
/// it is referred to.
pub struct AccountView {
    pub id: Seq<char>,
    pub name: Seq<char>,
    pub balance_type: BalanceType,
    pub account_type: AccountType,
    pub reference_count: nat,
}

/// A named ledger line with a balance side and a kind.
#[derive(Debug)]
pub struct Account {
    pub id: String,
    pub name: String,
    pub balance_type: BalanceType,
    pub account_type: AccountType,
    pub(crate) reference_count: u32,
}

impl View for Account {
    type V = AccountView;

    open(crate) spec fn view(&self) -> AccountView {
        AccountView {
            id: self.id@,
            name: self.name@,
            balance_type: self.balance_type,
            account_type: self.account_type,
            reference_count: self.references(),
        }
    }
}

impl Account {
    /// How many times the account is referred to.
    pub closed spec fn references(&self) -> nat {
        self.reference_count as nat
    }

    /// An account that nothing refers to yet, under the identifier `id`.
    pub fn with_id(
        id: String,
        name: String,
        balance_type: BalanceType,
        account_type: AccountType,
    ) -> (account: Account)
        ensures
            account@ == (AccountView {
                id: id@,
                name: name@,
                balance_type,
                account_type,
                reference_count: 0,
            }),
    {
        Account { id, name, balance_type, account_type, reference_count: 0 }
    }

    /// An account that nothing refers to yet, under a new random identifier.
    pub fn new(
        name: String,
        balance_type: BalanceType,
        account_type: AccountType,
    ) -> (account: Account)
        ensures
            is_id_text(account@.id),
            account@ == (AccountView {
                id: account@.id,
                name: name@,
                balance_type,
                account_type,
                reference_count: 0,
            }),
    {
        Account::with_id(fresh_id(), name, balance_type, account_type)
    }

    /// Counts one more reference on this copy of the account, which is then
    /// given up.
    pub fn increment_reference(self)
        requires
            self@.reference_count < u32::MAX,
    {
        let mut account = self;
        account.reference_count += 1;
    }

    /// Counts one reference less on this copy of the account, which is then
    /// given up.
    pub fn decrement_reference(self)
        requires
            self@.reference_count > 0,
    {
        let mut account = self;
        account.reference_count -= 1;
    }

    /// Whether anything refers to the account.
    pub fn is_referenced(self) -> (referenced: bool)
        ensures
            referenced == (self@.reference_count != 0),
    {
        self.reference_count != 0
    }
}

} // verus!
