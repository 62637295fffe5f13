//! Transactions: dated events that group account changes.

use crate::account_change::{AccountChange, AccountChangeView};
use crate::id_map::IdMap;
use crate::ident::{fresh_id, is_id_text};
use vstd::prelude::*;

verus! {

/// A transaction as a value, with the account changes it owns.
pub struct TransactionView {
    pub id: Seq<char>,
    pub date: Seq<char>,
    pub name: Seq<char>,
    pub description: Seq<char>,
    pub account_changes: Map<Seq<char>, AccountChangeView>,
}

/// A dated event. It owns its account changes: they go when it goes.
#[derive(Debug)]
pub struct Transaction {
    pub id: String,
    pub date: String,
    pub name: String,
    pub description: String,
    pub account_changes: IdMap<AccountChange>,
}

impl View for Transaction {
    type V = TransactionView;

    open spec fn view(&self) -> TransactionView {
        TransactionView {
            id: self.id@,
            date: self.date@,
            name: self.name@,
            description: self.description@,
            account_changes: self.account_changes@,
        }
    }
}

impl Transaction {
    /// A transaction without account changes, under the identifier `id`.
    pub fn with_id(
        id: String,
        date: String,
        name: String,
        description: String,
    ) -> (transaction: Transaction)
        ensures
            transaction@ == (TransactionView {
                id: id@,
                date: date@,
                name: name@,
                description: description@,
                account_changes: Map::empty(),
            }),
    {
        Transaction { id, date, name, description, account_changes: IdMap::new() }
    }

    /// A transaction without account changes, under a new random identifier.
    /// The date is taken as it is given.
    pub fn new(date: String, name: String, description: String) -> (transaction: Transaction)
        ensures
            is_id_text(transaction@.id),
            transaction@ == (TransactionView {
                id: transaction@.id,
                date: date@,
                name: name@,
                description: description@,
                account_changes: Map::empty(),
            }),
    {
        Transaction::with_id(fresh_id(), date, name, description)
    }
}

} // verus!
