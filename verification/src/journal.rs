//! Journals: the top-level containers of the ledger.

use crate::account::{Account, AccountView};
use crate::id_map::IdMap;
use crate::ident::{fresh_id, is_id_text};
use crate::transaction::{Transaction, TransactionView};
use vstd::prelude::*;

verus! {

/// A journal as a value, with the accounts and transactions it owns.
pub struct JournalView {
    pub id: Seq<char>,
    pub name: Seq<char>,
    pub accounts: Map<Seq<char>, AccountView>,
    pub transactions: Map<Seq<char>, TransactionView>,
}

/// A ledger container. It owns its accounts and transactions: they go when
/// it goes.
#[derive(Debug)]
pub struct Journal {
    pub id: String,
    pub name: String,
    pub accounts: IdMap<Account>,
    pub transactions: IdMap<Transaction>,
}

impl View for Journal {
    type V = JournalView;

    open spec fn view(&self) -> JournalView {
        JournalView {
            id: self.id@,
            name: self.name@,
            accounts: self.accounts@,
            transactions: self.transactions@,
        }
    }
}

impl Journal {
    /// An empty journal under the identifier `id`.
    pub fn with_id(id: String, name: String) -> (journal: Journal)
        ensures
            journal@ == (JournalView {
                id: id@,
                name: name@,
                accounts: Map::empty(),
                transactions: Map::empty(),
            }),
    {
        Journal { id, name, accounts: IdMap::new(), transactions: IdMap::new() }
    }

    /// An empty journal under a new random identifier.
    pub fn new(name: String) -> (journal: Journal)
        ensures
            is_id_text(journal@.id),
            journal@ == (JournalView {
                id: journal@.id,
                name: name@,
                accounts: Map::empty(),
                transactions: Map::empty(),
            }),
    {
        Journal::with_id(fresh_id(), name)
    }
}

} // verus!
