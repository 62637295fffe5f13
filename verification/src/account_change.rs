//! Account changes: the single debits and credits of a transaction.

use crate::account::BalanceType;
use crate::id_map::IdMap;
use crate::ident::{fresh_id, is_id_text};
use crate::journal::Journal;
use crate::unwrapper::{accounts_of, get_accounts, Ledger};
use crate::utility::{error_token, key_view};
use vstd::prelude::*;
use vstd::string::*;

verus! {

/// An account change as a value.
pub struct AccountChangeView {
    pub id: Seq<char>,
    pub account_id: Seq<char>,
    pub currency_id: Seq<char>,
    pub credit_or_debit: BalanceType,
    pub amount: Seq<char>,
}

/// One debit or credit of an amount in a currency against an account. The
/// account and the currency are referred to by identifier. The amount is held
/// as the decimal text with which it is shown.
#[derive(Debug)]
pub struct AccountChange {
    pub id: String,
    pub account_id: String,
    pub currency_id: String,
    pub credit_or_debit: BalanceType,
    pub amount: String,
}

impl View for AccountChange {
    type V = AccountChangeView;

    open spec fn view(&self) -> AccountChangeView {
        AccountChangeView {
            id: self.id@,
            account_id: self.account_id@,
            currency_id: self.currency_id@,
            credit_or_debit: self.credit_or_debit,
            amount: self.amount@,
        }
    }
}

/// The letter that stands for a side in the label of an account change.
pub open spec fn side_letter(side: BalanceType) -> Seq<char> {
    match side {
        BalanceType::Debit => "D"@,
        BalanceType::Credit => "C"@,
    }
}

/// The label under which an account change is listed in the journal that
/// `journal_id` selects: the letter of its side, the name of its account and
/// its amount. The error token stands for the name of an account that the
/// journal does not hold, and for the whole label where no journal is
/// selected.
pub open spec fn change_label(
    change: AccountChangeView,
    ledger: Ledger,
    journal_id: Option<Seq<char>>,
) -> Seq<char> {
    match accounts_of(ledger, journal_id) {
        None => "[ERROR]"@,
        Some(accounts) => {
            let name = if accounts.contains_key(change.account_id) {
                accounts[change.account_id].name
            } else {
                "[ERROR]"@
            };
            side_letter(change.credit_or_debit) + " - "@ + name + ": "@ + change.amount
        },
    }
}

impl AccountChange {
    /// The label under which the account change is listed.
    pub fn lookup_name(
        &self,
        journals: &IdMap<Journal>,
        journal_id: &Option<String>,
    ) -> (label: String)
        ensures
            label@ == change_label(self@, journals@, key_view(*journal_id)),
    {
        let accounts = match get_accounts(journals, journal_id) {
            None => {
                return String::from_str(error_token());
            },
            Some(accounts) => accounts,
        };
        let mut label: String = match self.credit_or_debit {
            BalanceType::Debit => String::from_str("D"),
            BalanceType::Credit => String::from_str("C"),
        };
        label.append(" - ");
        match accounts.get(&self.account_id) {
            None => label.append(error_token()),
            Some(account) => label.append(account.name.as_str()),
        }
        label.append(": ");
        label.append(self.amount.as_str());
        label
    }

    /// An account change under the identifier `id`.
    pub fn with_id(
        id: String,
        account_id: String,
        currency_id: String,
        credit_or_debit: BalanceType,
        amount: String,
    ) -> (change: AccountChange)
        ensures
            change@ == (AccountChangeView {
                id: id@,
                account_id: account_id@,
                currency_id: currency_id@,
                credit_or_debit,
                amount: amount@,
            }),
    {
        AccountChange { id, account_id, currency_id, credit_or_debit, amount }
    }

    /// An account change under a new random identifier.
    pub fn new(
        account_id: String,
        currency_id: String,
        credit_or_debit: BalanceType,
        amount: String,
    ) -> (change: AccountChange)
        ensures
            is_id_text(change@.id),
            change@ == (AccountChangeView {
                id: change@.id,
                account_id: account_id@,
                currency_id: currency_id@,
                credit_or_debit,
                amount: amount@,
            }),
    {
        AccountChange::with_id(fresh_id(), account_id, currency_id, credit_or_debit, amount)
    }
}

} // verus!
