//! The state of a session: the page that runs next and what is selected at
//! each of the four levels. Each screen is run from here, on the entity that
//! the selection resolves to, and leaves no selection behind that leads
//! nowhere.

use crate::account::{AccountView, BalanceType};
use crate::account_change::AccountChangeView;
use crate::account_change_controller;
use crate::account_change_controller::after_account_change_action;
use crate::account_controller;
use crate::account_controller::{after_account_action, AccountEntry};
use crate::id_map::IdMap;
use crate::ident::is_id_text;
use crate::journal::{Journal, JournalView};
use crate::journal_controller;
use crate::journal_controller::{after_journal_action, JournalAction};
use crate::listing::Selection;
use crate::page::Page;
use crate::transaction::TransactionView;
use crate::transaction_controller;
use crate::transaction_controller::{
    after_transaction_action, date_text, TransactionAction, TransactionEntry,
};
use crate::unwrapper::{
    account_change_of, account_changes_of, account_of, accounts_of, get_account,
    get_account_change, get_account_mut, get_accounts_mut, get_journal, get_journal_mut,
    get_transaction, get_transaction_mut, get_transactions_mut, journal_of, transaction_of,
    transactions_of, with_account, with_account_change, with_account_changes, with_transaction,
    with_transactions, Ledger,
};
use crate::unwrapper::with_accounts;
use crate::utility::{key_view, EntityAction, Report};
use vstd::prelude::*;

verus! {

/// What is selected at each level, as identifiers.
pub struct Chosen {
    pub journal: Option<Seq<char>>,
    pub account: Option<Seq<char>>,
    pub transaction: Option<Seq<char>>,
    pub account_change: Option<Seq<char>>,
}

/// Nothing selected at any level.
pub open spec fn nothing_chosen() -> Chosen {
    Chosen { journal: None, account: None, transaction: None, account_change: None }
}

/// `chosen` without the selections that lead nowhere in `ledger`: a journal
/// that is not there is dropped, and so is an account, a transaction or an
/// account change that is not found below the selections that stay.
pub open spec fn pruned(chosen: Chosen, ledger: Ledger) -> Chosen {
    let journal = if journal_of(ledger, chosen.journal) is Some {
        chosen.journal
    } else {
        None
    };
    let account = if account_of(ledger, journal, chosen.account) is Some {
        chosen.account
    } else {
        None
    };
    let transaction = if transaction_of(ledger, journal, chosen.transaction) is Some {
        chosen.transaction
    } else {
        None
    };
    let account_change = if account_change_of(ledger, journal, transaction, chosen.account_change)
        is Some {
        chosen.account_change
    } else {
        None
    };
    Chosen { journal, account, transaction, account_change }
}

/// Every selection of `chosen` leads to an entity of `ledger`.
pub open spec fn settled(chosen: Chosen, ledger: Ledger) -> bool {
    &&& chosen.journal is Some ==> journal_of(ledger, chosen.journal) is Some
    &&& chosen.account is Some ==> account_of(ledger, chosen.journal, chosen.account) is Some
    &&& chosen.transaction is Some ==> transaction_of(ledger, chosen.journal, chosen.transaction)
        is Some
    &&& chosen.account_change is Some ==> account_change_of(
        ledger,
        chosen.journal,
        chosen.transaction,
        chosen.account_change,
    ) is Some
}

/// What is left after pruning is settled, and pruning takes nothing from a
/// selection that is settled.
pub proof fn lemma_pruned_is_settled(chosen: Chosen, ledger: Ledger)
    ensures
        settled(pruned(chosen, ledger), ledger),
        settled(chosen, ledger) ==> pruned(chosen, ledger) == chosen,
{
}

/// The state of a session.
#[derive(Debug)]
pub struct Session {
    pub page: Page,
    pub journal_id: Option<String>,
    pub account_id: Option<String>,
    pub transaction_id: Option<String>,
    pub account_change_id: Option<String>,
    pub terminate_signal: bool,
}

impl Session {
    /// What is selected.
    pub open spec fn chosen(&self) -> Chosen {
        Chosen {
            journal: key_view(self.journal_id),
            account: key_view(self.account_id),
            transaction: key_view(self.transaction_id),
            account_change: key_view(self.account_change_id),
        }
    }

    /// The start of a session: the selection of journals, nothing selected,
    /// no signal to leave.
    pub fn new() -> (session: Session)
        ensures
            session.page == Page::SelectJournal,
            session.chosen() == nothing_chosen(),
            !session.terminate_signal,
    {
        Session {
            page: Page::SelectJournal,
            journal_id: None,
            account_id: None,
            transaction_id: None,
            account_change_id: None,
            terminate_signal: false,
        }
    }

    /// Runs the screen that makes a journal.
    pub fn new_journal(
        &mut self,
        journals: &mut IdMap<Journal>,
        name: Result<String, String>,
    ) -> (report: Report)
        ensures
            match name {
                Ok(text) => {
                    &&& exists|id: Seq<char>|
                        #[trigger] is_id_text(id) && final(journals)@ == old(journals)@.insert(
                            id,
                            JournalView {
                                id,
                                name: text@,
                                accounts: Map::empty(),
                                transactions: Map::empty(),
                            },
                        )
                    &&& final(self).page == Page::SelectJournal
                    &&& report == Report::Silent
                },
                Err(error) => {
                    &&& *final(journals) == *old(journals)
                    &&& final(self).page == Page::SelectAccount
                    &&& report == Report::Failed(error)
                },
            },
            final(self).chosen() == pruned(old(self).chosen(), final(journals)@),
            final(self).terminate_signal == old(self).terminate_signal,
            settled(final(self).chosen(), final(journals)@),
    {
        let report = journal_controller::new_journal(journals, &mut self.page, name);
        self.prune(journals);
        report
    }

    /// Runs the screen that selects a journal. Whatever is chosen, the
    /// selections below the journal are emptied.
    pub fn select_journal(
        &mut self,
        journals: &IdMap<Journal>,
        answer: Result<Selection, String>,
    ) -> (report: Report)
        ensures
            final(self).chosen() == pruned(
                Chosen {
                    journal: match answer {
                        Ok(Selection::Entity(id)) => if journals@.contains_key(id@) {
                            Some(journals@[id@].id)
                        } else {
                            None
                        },
                        _ => None,
                    },
                    account: None,
                    transaction: None,
                    account_change: None,
                },
                journals@,
            ),
            final(self).terminate_signal == (old(self).terminate_signal || answer == Ok::<
                Selection,
                String,
            >(Selection::Back)),
            match answer {
                Ok(Selection::Entity(id)) => if journals@.contains_key(id@) {
                    final(self).page == Page::ViewJournal && report == Report::Silent
                } else {
                    final(self).page == Page::SelectAccount && report == Report::NotFound
                },
                Ok(Selection::New) => final(self).page == Page::NewJournal && report
                    == Report::Silent,
                Ok(Selection::Back) => final(self).page == old(self).page && report
                    == Report::Silent,
                Err(error) => final(self).page == Page::SelectAccount && report == Report::Failed(
                    error,
                ),
            },
            settled(final(self).chosen(), journals@),
    {
        let report = journal_controller::select_journal(
            journals,
            &mut self.journal_id,
            &mut self.page,
            &mut self.terminate_signal,
            answer,
        );
        self.account_id = None;
        self.transaction_id = None;
        self.account_change_id = None;
        self.prune(journals);
        report
    }

    /// Runs the screen that views the selected journal.
    pub fn view_journal(
        &mut self,
        journals: &mut IdMap<Journal>,
        answer: Result<JournalAction, String>,
    ) -> (report: Report)
        ensures
            final(journals)@ == old(journals)@,
            match (journal_of(old(journals)@, old(self).chosen().journal), answer) {
                (None, _) => final(self).page == Page::SelectAccount && report == Report::NotFound,
                (Some(_), Err(error)) => final(self).page == Page::SelectAccount && report
                    == Report::Failed(error),
                (Some(_), Ok(action)) => final(self).page == after_journal_action(
                    old(self).page,
                    action,
                ) && report == if action == JournalAction::Display {
                    Report::Display
                } else {
                    Report::Silent
                },
            },
            final(self).chosen() == pruned(old(self).chosen(), final(journals)@),
            final(self).terminate_signal == old(self).terminate_signal,
            settled(final(self).chosen(), final(journals)@),
    {
        proof {
            let ledger = journals@;
            let id = self.chosen().journal;
            if journal_of(ledger, id) is Some {
                assert(ledger.insert(id->0, ledger[id->0]) =~= ledger);
            }
        }
        let report = journal_controller::view_journal(
            get_journal_mut(journals, &self.journal_id),
            &mut self.page,
            answer,
        );
        self.prune(journals);
        report
    }

    /// Runs the screen that deletes the selected journal. A journal that has
    /// gone is no longer selected, nor is anything below it.
    pub fn delete_journal(
        &mut self,
        journals: &mut IdMap<Journal>,
        answer: Result<bool, String>,
    ) -> (report: Report)
        ensures
            match (journal_of(old(journals)@, old(self).chosen().journal), answer) {
                (None, _) => {
                    &&& *final(journals) == *old(journals)
                    &&& final(self).page == Page::SelectAccount
                    &&& report == Report::NotFound
                },
                (Some(_), Err(error)) => {
                    &&& *final(journals) == *old(journals)
                    &&& final(self).page == Page::SelectAccount
                    &&& report == Report::Failed(error)
                },
                (Some(_), Ok(false)) => {
                    &&& *final(journals) == *old(journals)
                    &&& final(self).page == Page::ViewJournal
                    &&& report == Report::Silent
                },
                (Some(_), Ok(true)) => {
                    &&& final(journals)@ == old(journals)@.remove(old(self).chosen().journal->0)
                    &&& final(self).page == Page::SelectJournal
                    &&& report == Report::Silent
                    &&& final(self).chosen() == nothing_chosen()
                },
            },
            final(self).chosen() == pruned(old(self).chosen(), final(journals)@),
            final(self).terminate_signal == old(self).terminate_signal,
            settled(final(self).chosen(), final(journals)@),
    {
        let report = journal_controller::delete_journal(
            journals,
            &self.journal_id,
            &mut self.page,
            answer,
        );
        self.prune(journals);
        report
    }


    /// Runs the screen that makes an account in the selected journal.
    pub fn new_account(
        &mut self,
        journals: &mut IdMap<Journal>,
        answer: Result<AccountEntry, String>,
    ) -> (report: Report)
        ensures
            match (accounts_of(old(journals)@, old(self).chosen().journal), answer) {
                (None, _) => {
                    &&& final(journals)@ == old(journals)@
                    &&& final(self).page == Page::SelectAccount
                    &&& report == Report::NotFound
                },
                (Some(_), Err(error)) => {
                    &&& final(journals)@ == old(journals)@
                    &&& final(self).page == Page::SelectAccount
                    &&& report == Report::Failed(error)
                },
                (Some(_), Ok(entry)) => {
                    &&& exists|id: Seq<char>|
                        #[trigger] is_id_text(id) && final(journals)@ == with_account(
                            old(journals)@,
                            old(self).chosen().journal->0,
                            id,
                            AccountView {
                                id,
                                name: entry.name@,
                                balance_type: entry.balance_type,
                                account_type: entry.account_type,
                                reference_count: 0,
                            },
                        )
                    &&& final(self).page == Page::SelectAccount
                    &&& report == Report::Silent
                },
            },
            final(self).chosen() == pruned(old(self).chosen(), final(journals)@),
            final(self).terminate_signal == old(self).terminate_signal,
            settled(final(self).chosen(), final(journals)@),
    {
        proof {
            let ledger = journals@;
            let id = self.chosen().journal;
            if journal_of(ledger, id) is Some {
                assert(ledger.insert(id->0, ledger[id->0]) =~= ledger);
            }
        }
        let report = account_controller::new_account(
            get_accounts_mut(journals, &self.journal_id),
            &mut self.page,
            answer,
        );
        self.prune(journals);
        report
    }

    /// Runs the screen that selects an account in the selected journal.
    pub fn select_account(
        &mut self,
        journals: &mut IdMap<Journal>,
        answer: Result<Selection, String>,
    ) -> (report: Report)
        ensures
            final(journals)@ == old(journals)@,
            final(self).chosen() == pruned(
                Chosen {
                    account: match (journal_of(old(journals)@, old(self).chosen().journal), answer) {
                        (Some(journal), Ok(Selection::Entity(id))) => if journal.accounts.contains_key(
                            id@,
                        ) {
                            Some(journal.accounts[id@].id)
                        } else {
                            None
                        },
                        _ => None,
                    },
                    ..old(self).chosen()
                },
                final(journals)@,
            ),
            final(self).terminate_signal == old(self).terminate_signal,
            match (journal_of(old(journals)@, old(self).chosen().journal), answer) {
                (None, _) => final(self).page == Page::SelectAccount && report == Report::NotFound,
                (Some(_), Err(error)) => final(self).page == Page::SelectAccount && report
                    == Report::Failed(error),
                (Some(journal), Ok(Selection::Entity(id))) => if journal.accounts.contains_key(id@) {
                    final(self).page == Page::ViewAccount && report == Report::Silent
                } else {
                    final(self).page == Page::SelectAccount && report == Report::NotFound
                },
                (Some(_), Ok(Selection::New)) => final(self).page == Page::NewAccount && report
                    == Report::Silent,
                (Some(_), Ok(Selection::Back)) => final(self).page == Page::ViewJournal && report
                    == Report::Silent,
            },
            settled(final(self).chosen(), final(journals)@),
    {
        proof {
            let ledger = journals@;
            let id = self.chosen().journal;
            if journal_of(ledger, id) is Some {
                assert(ledger.insert(id->0, ledger[id->0]) =~= ledger);
            }
        }
        let report = account_controller::select_account(
            &mut self.account_id,
            get_journal_mut(journals, &self.journal_id),
            &mut self.page,
            answer,
        );
        self.prune(journals);
        report
    }

    /// Runs the screen that views the selected account.
    pub fn view_account(
        &mut self,
        journals: &mut IdMap<Journal>,
        answer: Result<EntityAction, String>,
    ) -> (report: Report)
        ensures
            final(journals)@ == old(journals)@,
            match (
                account_of(old(journals)@, old(self).chosen().journal, old(self).chosen().account),
                answer,
            ) {
                (None, _) => final(self).page == Page::SelectAccount && report == Report::NotFound,
                (Some(_), Err(error)) => final(self).page == Page::SelectAccount && report
                    == Report::Failed(error),
                (Some(_), Ok(action)) => final(self).page == after_account_action(
                    old(self).page,
                    action,
                ) && report == if action == EntityAction::Display {
                    Report::Display
                } else {
                    Report::Silent
                },
            },
            final(self).chosen() == pruned(old(self).chosen(), final(journals)@),
            final(self).terminate_signal == old(self).terminate_signal,
            settled(final(self).chosen(), final(journals)@),
    {
        proof {
            let ledger = journals@;
            let id = self.chosen().journal;
            let account = self.chosen().account;
            if account_of(ledger, id, account) is Some {
                let accounts = ledger[id->0].accounts;
                assert(accounts.insert(account->0, accounts[account->0]) =~= accounts);
                assert(ledger.insert(id->0, ledger[id->0]) =~= ledger);
            }
        }
        let report = account_controller::view_account(
            get_account_mut(journals, &self.journal_id, &self.account_id),
            &mut self.page,
            answer,
        );
        self.prune(journals);
        report
    }

    /// Runs the screen that deletes the selected account. An account that
    /// has gone is no longer selected.
    pub fn delete_account(
        &mut self,
        journals: &mut IdMap<Journal>,
        answer: Result<bool, String>,
    ) -> (report: Report)
        ensures
            match (
                account_of(old(journals)@, old(self).chosen().journal, old(self).chosen().account),
                answer,
            ) {
                (None, _) => {
                    &&& final(journals)@ == old(journals)@
                    &&& final(self).page == Page::SelectAccount
                    &&& report == Report::NotFound
                },
                (Some(_), Err(error)) => {
                    &&& final(journals)@ == old(journals)@
                    &&& final(self).page == Page::SelectAccount
                    &&& report == Report::Failed(error)
                },
                (Some(_), Ok(false)) => {
                    &&& final(journals)@ == old(journals)@
                    &&& final(self).page == Page::ViewAccount
                    &&& report == Report::Silent
                },
                (Some(_), Ok(true)) => {
                    &&& final(journals)@ == with_accounts(
                        old(journals)@,
                        old(self).chosen().journal->0,
                        old(journals)@[old(self).chosen().journal->0].accounts.remove(
                            old(self).chosen().account->0,
                        ),
                    )
                    &&& final(self).page == Page::SelectAccount
                    &&& report == Report::Silent
                    &&& final(self).chosen().account is None
                },
            },
            final(self).chosen() == pruned(old(self).chosen(), final(journals)@),
            final(self).terminate_signal == old(self).terminate_signal,
            settled(final(self).chosen(), final(journals)@),
    {
        proof {
            let ledger = journals@;
            let id = self.chosen().journal;
            if journal_of(ledger, id) is Some {
                assert(ledger.insert(id->0, ledger[id->0]) =~= ledger);
            }
        }
        let report = account_controller::delete_account(
            get_accounts_mut(journals, &self.journal_id),
            &self.account_id,
            &mut self.page,
            answer,
        );
        self.prune(journals);
        report
    }

    /// Runs the screen that makes a transaction in the selected journal.
    pub fn new_transaction(
        &mut self,
        journals: &mut IdMap<Journal>,
        answer: Result<TransactionEntry, String>,
    ) -> (report: Report)
        ensures
            match (transactions_of(old(journals)@, old(self).chosen().journal), answer) {
                (None, _) => {
                    &&& final(journals)@ == old(journals)@
                    &&& final(self).page == Page::SelectAccount
                    &&& report == Report::NotFound
                },
                (Some(_), Err(error)) => {
                    &&& final(journals)@ == old(journals)@
                    &&& final(self).page == Page::SelectAccount
                    &&& report == Report::Failed(error)
                },
                (Some(_), Ok(entry)) => {
                    &&& exists|id: Seq<char>|
                        #[trigger] is_id_text(id) && final(journals)@ == with_transaction(
                            old(journals)@,
                            old(self).chosen().journal->0,
                            id,
                            TransactionView {
                                id,
                                date: date_text(
                                    entry.year as int,
                                    entry.month as nat,
                                    entry.day as nat,
                                ),
                                name: entry.name@,
                                description: entry.description@,
                                account_changes: Map::empty(),
                            },
                        )
                    &&& final(self).page == Page::SelectTransaction
                    &&& report == Report::Silent
                },
            },
            final(self).chosen() == pruned(old(self).chosen(), final(journals)@),
            final(self).terminate_signal == old(self).terminate_signal,
            settled(final(self).chosen(), final(journals)@),
    {
        proof {
            let ledger = journals@;
            let id = self.chosen().journal;
            if journal_of(ledger, id) is Some {
                assert(ledger.insert(id->0, ledger[id->0]) =~= ledger);
            }
        }
        let report = transaction_controller::new_transaction(
            &mut self.page,
            get_transactions_mut(journals, &self.journal_id),
            answer,
        );
        self.prune(journals);
        report
    }

    /// Runs the screen that selects a transaction in the selected journal.
    /// Whatever is chosen, no account change stays selected.
    pub fn select_transaction(
        &mut self,
        journals: &mut IdMap<Journal>,
        answer: Result<Selection, String>,
    ) -> (report: Report)
        ensures
            final(journals)@ == old(journals)@,
            final(self).chosen() == pruned(
                Chosen {
                    transaction: match (
                        transactions_of(old(journals)@, old(self).chosen().journal),
                        answer,
                    ) {
                        (Some(transactions), Ok(Selection::Entity(id))) => if transactions.contains_key(
                            id@,
                        ) {
                            Some(transactions[id@].id)
                        } else {
                            old(self).chosen().transaction
                        },
                        _ => old(self).chosen().transaction,
                    },
                    account_change: None,
                    ..old(self).chosen()
                },
                final(journals)@,
            ),
            final(self).terminate_signal == old(self).terminate_signal,
            match (transactions_of(old(journals)@, old(self).chosen().journal), answer) {
                (None, _) => final(self).page == Page::SelectAccount && report == Report::NotFound,
                (Some(_), Err(error)) => final(self).page == Page::SelectAccount && report
                    == Report::Failed(error),
                (Some(transactions), Ok(Selection::Entity(id))) => if transactions.contains_key(
                    id@,
                ) {
                    final(self).page == Page::ViewTransaction && report == Report::Silent
                } else {
                    final(self).page == Page::SelectAccount && report == Report::NotFound
                },
                (Some(_), Ok(Selection::New)) => final(self).page == Page::NewTransaction && report
                    == Report::Silent,
                (Some(_), Ok(Selection::Back)) => final(self).page == Page::ViewJournal && report
                    == Report::Silent,
            },
            settled(final(self).chosen(), final(journals)@),
    {
        proof {
            let ledger = journals@;
            let id = self.chosen().journal;
            if journal_of(ledger, id) is Some {
                assert(ledger.insert(id->0, ledger[id->0]) =~= ledger);
            }
        }
        let report = transaction_controller::select_transaction(
            &mut self.page,
            &mut self.transaction_id,
            get_transactions_mut(journals, &self.journal_id),
            answer,
        );
        self.account_change_id = None;
        self.prune(journals);
        report
    }

    /// Runs the screen that views the selected transaction.
    pub fn view_transaction(
        &mut self,
        journals: &mut IdMap<Journal>,
        answer: Result<TransactionAction, String>,
    ) -> (report: Report)
        ensures
            final(journals)@ == old(journals)@,
            match (
                transaction_of(
                    old(journals)@,
                    old(self).chosen().journal,
                    old(self).chosen().transaction,
                ),
                answer,
            ) {
                (None, _) => final(self).page == Page::SelectAccount && report == Report::NotFound,
                (Some(_), Err(error)) => final(self).page == Page::SelectAccount && report
                    == Report::Failed(error),
                (Some(_), Ok(action)) => final(self).page == after_transaction_action(
                    old(self).page,
                    action,
                ) && report == if action == TransactionAction::Display {
                    Report::Display
                } else {
                    Report::Silent
                },
            },
            final(self).chosen() == pruned(old(self).chosen(), final(journals)@),
            final(self).terminate_signal == old(self).terminate_signal,
            settled(final(self).chosen(), final(journals)@),
    {
        proof {
            let ledger = journals@;
            let id = self.chosen().journal;
            let transaction = self.chosen().transaction;
            if transaction_of(ledger, id, transaction) is Some {
                let transactions = ledger[id->0].transactions;
                assert(transactions.insert(transaction->0, transactions[transaction->0])
                    =~= transactions);
                assert(ledger.insert(id->0, ledger[id->0]) =~= ledger);
            }
        }
        let report = transaction_controller::view_transaction(
            &mut self.page,
            get_transaction_mut(journals, &self.journal_id, &self.transaction_id),
            answer,
        );
        self.prune(journals);
        report
    }

    /// Runs the screen that deletes the selected transaction. A transaction
    /// that has gone is no longer selected, nor is an account change of it.
    pub fn delete_transaction(
        &mut self,
        journals: &mut IdMap<Journal>,
        answer: Result<bool, String>,
    ) -> (report: Report)
        ensures
            match (
                transaction_of(
                    old(journals)@,
                    old(self).chosen().journal,
                    old(self).chosen().transaction,
                ),
                answer,
            ) {
                (None, _) => {
                    &&& final(journals)@ == old(journals)@
                    &&& final(self).page == Page::SelectAccount
                    &&& report == Report::NotFound
                },
                (Some(_), Err(error)) => {
                    &&& final(journals)@ == old(journals)@
                    &&& final(self).page == Page::SelectAccount
                    &&& report == Report::Failed(error)
                },
                (Some(_), Ok(false)) => {
                    &&& final(journals)@ == old(journals)@
                    &&& final(self).page == Page::ViewTransaction
                    &&& report == Report::Silent
                },
                (Some(_), Ok(true)) => {
                    &&& final(journals)@ == with_transactions(
                        old(journals)@,
                        old(self).chosen().journal->0,
                        old(journals)@[old(self).chosen().journal->0].transactions.remove(
                            old(self).chosen().transaction->0,
                        ),
                    )
                    &&& final(self).page == Page::SelectTransaction
                    &&& report == Report::Silent
                    &&& final(self).chosen().transaction is None
                    &&& final(self).chosen().account_change is None
                },
            },
            final(self).chosen() == pruned(old(self).chosen(), final(journals)@),
            final(self).terminate_signal == old(self).terminate_signal,
            settled(final(self).chosen(), final(journals)@),
    {
        proof {
            let ledger = journals@;
            let id = self.chosen().journal;
            if journal_of(ledger, id) is Some {
                assert(ledger.insert(id->0, ledger[id->0]) =~= ledger);
            }
        }
        let report = transaction_controller::delete_transaction(
            &mut self.page,
            get_transactions_mut(journals, &self.journal_id),
            &self.transaction_id,
            answer,
        );
        self.prune(journals);
        report
    }

    /// Runs the screen that makes an account change in the selected
    /// transaction.
    pub fn new_account_change(
        &mut self,
        currency_id: String,
        journals: &mut IdMap<Journal>,
        credit_or_debit: Result<BalanceType, String>,
        account_id: Result<String, String>,
        amount: Result<String, String>,
    ) -> (report: Report)
        ensures
            match credit_or_debit {
                Err(error) => {
                    &&& final(journals)@ == old(journals)@
                    &&& final(self).page == Page::SelectAccount
                    &&& report == Report::Failed(error)
                },
                Ok(side) => match (
                    accounts_of(old(journals)@, old(self).chosen().journal),
                    account_id,
                    amount,
                ) {
                    (None, _, _) => {
                        &&& final(journals)@ == old(journals)@
                        &&& final(self).page == Page::SelectAccount
                        &&& report == Report::NotFound
                    },
                    (Some(_), Err(error), _) => {
                        &&& final(journals)@ == old(journals)@
                        &&& final(self).page == Page::SelectAccount
                        &&& report == Report::Failed(error)
                    },
                    (Some(_), Ok(_), Err(error)) => {
                        &&& final(journals)@ == old(journals)@
                        &&& final(self).page == Page::SelectAccount
                        &&& report == Report::Failed(error)
                    },
                    (Some(_), Ok(account), Ok(sum)) => match transaction_of(
                        old(journals)@,
                        old(self).chosen().journal,
                        old(self).chosen().transaction,
                    ) {
                        None => {
                            &&& final(journals)@ == old(journals)@
                            &&& final(self).page == Page::SelectAccount
                            &&& report == Report::NotFound
                        },
                        Some(_) => {
                            &&& exists|id: Seq<char>|
                                #[trigger] is_id_text(id) && final(journals)@
                                    == with_account_change(
                                    old(journals)@,
                                    old(self).chosen().journal->0,
                                    old(self).chosen().transaction->0,
                                    id,
                                    AccountChangeView {
                                        id,
                                        account_id: account@,
                                        currency_id: currency_id@,
                                        credit_or_debit: side,
                                        amount: sum@,
                                    },
                                )
                            &&& final(self).page == Page::SelectAccountChange
                            &&& report == Report::Silent
                        },
                    },
                },
            },
            final(self).chosen() == pruned(old(self).chosen(), final(journals)@),
            final(self).terminate_signal == old(self).terminate_signal,
            settled(final(self).chosen(), final(journals)@),
    {
        let report = account_change_controller::new_account_change(
            currency_id,
            &self.journal_id,
            journals,
            &mut self.page,
            &self.transaction_id,
            credit_or_debit,
            account_id,
            amount,
        );
        self.prune(journals);
        report
    }

    /// Runs the screen that selects an account change of the selected
    /// transaction.
    pub fn select_account_change(
        &mut self,
        journals: &mut IdMap<Journal>,
        answer: Result<Selection, String>,
    ) -> (report: Report)
        ensures
            *final(journals) == *old(journals),
            final(self).chosen() == pruned(
                Chosen {
                    account_change: match (
                        account_changes_of(
                            old(journals)@,
                            old(self).chosen().journal,
                            old(self).chosen().transaction,
                        ),
                        answer,
                    ) {
                        (Some(changes), Ok(Selection::Entity(id))) => if changes.contains_key(id@) {
                            Some(changes[id@].id)
                        } else {
                            old(self).chosen().account_change
                        },
                        _ => old(self).chosen().account_change,
                    },
                    ..old(self).chosen()
                },
                final(journals)@,
            ),
            final(self).terminate_signal == old(self).terminate_signal,
            match (
                account_changes_of(
                    old(journals)@,
                    old(self).chosen().journal,
                    old(self).chosen().transaction,
                ),
                answer,
            ) {
                (None, _) => final(self).page == Page::SelectAccount && report == Report::NotFound,
                (Some(_), Err(error)) => final(self).page == Page::SelectAccount && report
                    == Report::Failed(error),
                (Some(changes), Ok(Selection::Entity(id))) => if changes.contains_key(id@) {
                    final(self).page == Page::ViewAccountChange && report == Report::Silent
                } else {
                    final(self).page == Page::SelectAccount && report == Report::NotFound
                },
                (Some(_), Ok(Selection::New)) => final(self).page == Page::NewAccountChange
                    && report == Report::Silent,
                (Some(_), Ok(Selection::Back)) => final(self).page == Page::ViewTransaction
                    && report == Report::Silent,
            },
            settled(final(self).chosen(), final(journals)@),
    {
        let report = account_change_controller::select_account_change(
            &mut self.account_change_id,
            &self.journal_id,
            journals,
            &mut self.page,
            &self.transaction_id,
            answer,
        );
        self.prune(journals);
        report
    }

    /// Runs the screen that views the selected account change.
    pub fn view_account_change(
        &mut self,
        journals: &mut IdMap<Journal>,
        answer: Result<EntityAction, String>,
    ) -> (report: Report)
        ensures
            *final(journals) == *old(journals),
            match (
                account_change_of(
                    old(journals)@,
                    old(self).chosen().journal,
                    old(self).chosen().transaction,
                    old(self).chosen().account_change,
                ),
                answer,
            ) {
                (None, _) => final(self).page == Page::SelectAccount && report == Report::NotFound,
                (Some(_), Err(error)) => final(self).page == Page::SelectAccount && report
                    == Report::Failed(error),
                (Some(_), Ok(action)) => final(self).page == after_account_change_action(
                    old(self).page,
                    action,
                ) && report == if action == EntityAction::Display {
                    Report::Display
                } else {
                    Report::Silent
                },
            },
            final(self).chosen() == pruned(old(self).chosen(), final(journals)@),
            final(self).terminate_signal == old(self).terminate_signal,
            settled(final(self).chosen(), final(journals)@),
    {
        let report = account_change_controller::view_account_change(
            &mut self.account_change_id,
            &self.journal_id,
            journals,
            &mut self.page,
            &self.transaction_id,
            answer,
        );
        self.prune(journals);
        report
    }

    /// Runs the screen that deletes the selected account change. An account
    /// change that has gone is no longer selected.
    pub fn delete_account_change(
        &mut self,
        journals: &mut IdMap<Journal>,
        answer: Result<bool, String>,
    ) -> (report: Report)
        ensures
            match (
                account_change_of(
                    old(journals)@,
                    old(self).chosen().journal,
                    old(self).chosen().transaction,
                    old(self).chosen().account_change,
                ),
                answer,
            ) {
                (None, _) => {
                    &&& *final(journals) == *old(journals)
                    &&& final(self).page == Page::SelectAccount
                    &&& report == Report::NotFound
                },
                (Some(_), Err(error)) => {
                    &&& *final(journals) == *old(journals)
                    &&& final(self).page == Page::SelectAccount
                    &&& report == Report::Failed(error)
                },
                (Some(_), Ok(false)) => {
                    &&& *final(journals) == *old(journals)
                    &&& final(self).page == Page::ViewAccountChange
                    &&& report == Report::Silent
                },
                (Some(_), Ok(true)) => {
                    &&& final(journals)@ == with_account_changes(
                        old(journals)@,
                        old(self).chosen().journal->0,
                        old(self).chosen().transaction->0,
                        old(journals)@[old(self).chosen().journal->0].transactions[old(
                            self,
                        ).chosen().transaction->0].account_changes.remove(
                            old(self).chosen().account_change->0,
                        ),
                    )
                    &&& final(self).page == Page::SelectAccountChange
                    &&& report == Report::Silent
                    &&& final(self).chosen().account_change is None
                },
            },
            final(self).chosen() == pruned(old(self).chosen(), final(journals)@),
            final(self).terminate_signal == old(self).terminate_signal,
            settled(final(self).chosen(), final(journals)@),
    {
        let report = account_change_controller::delete_account_change(
            &self.account_change_id,
            &self.journal_id,
            journals,
            &mut self.page,
            &self.transaction_id,
            answer,
        );
        self.prune(journals);
        report
    }

    /// Drops every selection that leads nowhere in `journals`.
    pub fn prune(&mut self, journals: &IdMap<Journal>)
        ensures
            final(self).chosen() == pruned(old(self).chosen(), journals@),
            settled(final(self).chosen(), journals@),
            final(self).page == old(self).page,
            final(self).terminate_signal == old(self).terminate_signal,
    {
        if get_journal(journals, &self.journal_id).is_none() {
            self.journal_id = None;
        }
        if get_account(journals, &self.journal_id, &self.account_id).is_none() {
            self.account_id = None;
        }
        if get_transaction(journals, &self.journal_id, &self.transaction_id).is_none() {
            self.transaction_id = None;
        }
        if get_account_change(
            journals,
            &self.journal_id,
            &self.transaction_id,
            &self.account_change_id,
        ).is_none() {
            self.account_change_id = None;
        }
    }
}

} // verus!
