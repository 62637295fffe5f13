//! The four screens of transactions.

use crate::id_map::IdMap;
use crate::ident::is_id_text;
use crate::listing::{
    is_menu, lemma_as_map_labelled, menu, rows_of, texts, ties_in_order, Selection,
};
use crate::page::Page;
use crate::text::{decimal, signed_decimal, signed_text, unsigned_text};
use crate::transaction::{Transaction, TransactionView};
use crate::utility::{key_view, lookup, on_error, on_not_found, LabeledItem, Report};
use vstd::prelude::*;
use vstd::string::*;

verus! {

/// What can be done with the transaction on view.
#[derive(Debug, Clone, Copy, PartialEq, Eq, Structural)]
pub enum TransactionAction {
    Back,
    Display,
    AccountChanges,
    Delete,
}

/// What the prompts for a new transaction returned. The parts of the date
/// are taken as the prompts accepted them.
#[derive(Debug)]
pub struct TransactionEntry {
    pub name: String,
    pub year: i32,
    pub month: u32,
    pub day: u32,
    pub description: String,
}

/// A date as it is written: year, month and day as decimal numerals with a
/// slash between them.
pub open spec fn date_text(year: int, month: nat, day: nat) -> Seq<char> {
    signed_decimal(year) + "/"@ + decimal(month) + "/"@ + decimal(day)
}

/// Writes a date: year, month and day with a slash between them.
pub fn written_date(year: i32, month: u32, day: u32) -> (date: String)
    ensures
        date@ == date_text(year as int, month as nat, day as nat),
{
    let mut date: String = signed_text(year);
    date.append("/");
    let month_text: String = unsigned_text(month as u64);
    date.append(month_text.as_str());
    date.append("/");
    let day_text: String = unsigned_text(day as u64);
    date.append(day_text.as_str());
    date
}

/// Puts `transaction` among `transactions` under its own identifier, in
/// place of any transaction that was there under it, and turns to the list
/// of transactions.
pub fn add_transaction(
    transactions: &mut IdMap<Transaction>,
    page: &mut Page,
    transaction: Transaction,
)
    ensures
        final(transactions)@ == old(transactions)@.insert(transaction@.id, transaction@),
        *final(page) == Page::SelectTransaction,
{
    transactions.insert(transaction.id.clone(), transaction);
    *page = Page::SelectTransaction;
}

/// The screen that makes a transaction. `transactions` is what the selected
/// journal resolved to and `answer` what the prompts returned, or the
/// failure of the first prompt that failed. An answer makes a transaction
/// without account changes, under a new random identifier; the list of
/// transactions comes next.
pub fn new_transaction(
    page: &mut Page,
    transactions: Option<&mut IdMap<Transaction>>,
    answer: Result<TransactionEntry, String>,
) -> (report: Report)
    ensures
        match (transactions, answer) {
            (None, _) => *final(page) == Page::SelectAccount && report == Report::NotFound,
            (Some(registry), Err(error)) => {
                &&& *final(registry) == *registry
                &&& *final(page) == Page::SelectAccount
                &&& report == Report::Failed(error)
            },
            (Some(registry), Ok(entry)) => {
                &&& exists|id: Seq<char>|
                    #[trigger] is_id_text(id) && final(registry)@ == registry@.insert(
                        id,
                        TransactionView {
                            id,
                            date: date_text(
                                entry.year as int,
                                entry.month as nat,
                                entry.day as nat,
                            ),
                            name: entry.name@,
                            description: entry.description@,
                            account_changes: Map::empty(),
                        },
                    )
                &&& *final(page) == Page::SelectTransaction
                &&& report == Report::Silent
            },
        },
{
    let transactions = match transactions {
        None => {
            return on_not_found(page);
        },
        Some(transactions) => transactions,
    };
    let entry = match answer {
        Err(error) => {
            return on_error(page, error);
        },
        Ok(entry) => entry,
    };
    let date: String = written_date(entry.year, entry.month, entry.day);
    let transaction = Transaction::new(date, entry.name, entry.description);
    proof {
        assert(is_id_text(transaction@.id));
    }
    add_transaction(transactions, page, transaction);
    Report::Silent
}

/// The label under which a transaction is listed: its date, a colon and its
/// name.
pub open spec fn transaction_label(transaction: TransactionView) -> Seq<char> {
    transaction.date + ": "@ + transaction.name
}

/// The list that the selection of transactions offers: every transaction
/// under its date and name, by ascending label, then "[New Transaction]"
/// and "[Back]".
pub fn select_transaction_options(
    transactions: &IdMap<Transaction>,
) -> (options: Vec<LabeledItem<Selection>>)
    ensures
        is_menu(
            options@,
            transactions@.map_values(|transaction: TransactionView| transaction_label(transaction)),
            "[New Transaction]"@,
            "[Back]"@,
        ),
        ties_in_order(rows_of(options@.take(options@.len() - 2)), transactions.entries()),
{
    let mut labels: Vec<String> = Vec::new();
    let mut i: usize = 0;
    let n: usize = transactions.len();
    while i < n
        invariant
            i <= n,
            n == transactions.entries().len(),
            labels@.len() == i,
            forall|j: int|
                0 <= j < i ==> #[trigger] labels@[j]@ == transaction_label(
                    transactions.entries()[j].1,
                ),
        decreases n - i,
    {
        let transaction = transactions.value_at(i);
        let mut label: String = transaction.date.clone();
        label.append(": ");
        label.append(transaction.name.as_str());
        labels.push(label);
        i += 1;
    }
    proof {
        use_type_invariant(transactions);
        lemma_as_map_labelled(
            transactions.entries(),
            texts(labels@),
            |transaction: TransactionView| transaction_label(transaction),
        );
    }
    menu(transactions, &labels, "[New Transaction]", "[Back]")
}

/// The screen that selects a transaction. `transactions` is what the
/// selected journal resolved to and `answer` the choice that was made from
/// the list, or the prompt's failure. A transaction that is there becomes
/// the selection and goes on view; making a new one leads to its screen;
/// going back leads to the journal on view. Nothing else changes the
/// selection, and the transactions are left as they are.
pub fn select_transaction(
    page: &mut Page,
    transaction_id: &mut Option<String>,
    transactions: Option<&mut IdMap<Transaction>>,
    answer: Result<Selection, String>,
) -> (report: Report)
    ensures
        transactions matches Some(registry) ==> *final(registry) == *registry,
        match (transactions, answer) {
            (None, _) => {
                &&& *final(transaction_id) == *old(transaction_id)
                &&& *final(page) == Page::SelectAccount
                &&& report == Report::NotFound
            },
            (Some(_), Err(error)) => {
                &&& *final(transaction_id) == *old(transaction_id)
                &&& *final(page) == Page::SelectAccount
                &&& report == Report::Failed(error)
            },
            (Some(registry), Ok(Selection::Entity(id))) => if registry@.contains_key(id@) {
                &&& key_view(*final(transaction_id)) == Some(registry@[id@].id)
                &&& *final(page) == Page::ViewTransaction
                &&& report == Report::Silent
            } else {
                &&& *final(transaction_id) == *old(transaction_id)
                &&& *final(page) == Page::SelectAccount
                &&& report == Report::NotFound
            },
            (Some(_), Ok(Selection::New)) => {
                &&& *final(transaction_id) == *old(transaction_id)
                &&& *final(page) == Page::NewTransaction
                &&& report == Report::Silent
            },
            (Some(_), Ok(Selection::Back)) => {
                &&& *final(transaction_id) == *old(transaction_id)
                &&& *final(page) == Page::ViewJournal
                &&& report == Report::Silent
            },
        },
{
    let transactions = match transactions {
        None => {
            return on_not_found(page);
        },
        Some(transactions) => transactions,
    };
    let selection = match answer {
        Err(error) => {
            return on_error(page, error);
        },
        Ok(selection) => selection,
    };
    match selection {
        Selection::Entity(id) => {
            match transactions.get(&id) {
                None => {
                    return on_not_found(page);
                },
                Some(transaction) => {
                    *transaction_id = Some(transaction.id.clone());
                    *page = Page::ViewTransaction;
                },
            }
        },
        Selection::New => {
            *page = Page::NewTransaction;
        },
        Selection::Back => {
            *page = Page::ViewJournal;
        },
    }
    Report::Silent
}

/// The label of each action on a transaction.
pub open spec fn transaction_action_label(action: TransactionAction) -> Seq<char> {
    match action {
        TransactionAction::Back => "[Back]"@,
        TransactionAction::Display => "[Display]"@,
        TransactionAction::AccountChanges => "[Account Changes]"@,
        TransactionAction::Delete => "[Delete]"@,
    }
}

/// The list that the view of a transaction offers.
pub fn view_transaction_options() -> (options: Vec<LabeledItem<TransactionAction>>)
    ensures
        options@.len() == 4,
        options@[0].item == TransactionAction::Back,
        options@[1].item == TransactionAction::Display,
        options@[2].item == TransactionAction::AccountChanges,
        options@[3].item == TransactionAction::Delete,
        forall|i: int|
            0 <= i < 4 ==> (#[trigger] options@[i]).label@ == transaction_action_label(
                options@[i].item,
            ),
{
    let mut options: Vec<LabeledItem<TransactionAction>> = Vec::new();
    options.push(LabeledItem::from(String::from_str("[Back]"), TransactionAction::Back));
    options.push(LabeledItem::from(String::from_str("[Display]"), TransactionAction::Display));
    options.push(
        LabeledItem::from(String::from_str("[Account Changes]"), TransactionAction::AccountChanges),
    );
    options.push(LabeledItem::from(String::from_str("[Delete]"), TransactionAction::Delete));
    options
}

/// The page that follows an action on the transaction on view, which is
/// shown on `page`.
pub open spec fn after_transaction_action(page: Page, action: TransactionAction) -> Page {
    match action {
        TransactionAction::Display => page,
        TransactionAction::Back => Page::SelectTransaction,
        TransactionAction::Delete => Page::DeleteTransaction,
        TransactionAction::AccountChanges => Page::SelectAccountChange,
    }
}

/// The screen that views a transaction. `transaction` is what the selection
/// resolved to and `answer` the action that was chosen, or the prompt's
/// failure. The transaction is left as it is.
pub fn view_transaction(
    page: &mut Page,
    transaction: Option<&mut Transaction>,
    answer: Result<TransactionAction, String>,
) -> (report: Report)
    ensures
        transaction matches Some(viewed) ==> *final(viewed) == *viewed,
        match (transaction, answer) {
            (None, _) => *final(page) == Page::SelectAccount && report == Report::NotFound,
            (Some(_), Err(error)) => *final(page) == Page::SelectAccount && report
                == Report::Failed(error),
            (Some(_), Ok(action)) => *final(page) == after_transaction_action(*old(page), action)
                && report == if action == TransactionAction::Display {
                Report::Display
            } else {
                Report::Silent
            },
        },
{
    if transaction.is_none() {
        return on_not_found(page);
    }
    let selection = match answer {
        Err(error) => {
            return on_error(page, error);
        },
        Ok(selection) => selection,
    };
    match selection {
        TransactionAction::Display => {
            return Report::Display;
        },
        TransactionAction::Back => {
            *page = Page::SelectTransaction;
        },
        TransactionAction::Delete => {
            *page = Page::DeleteTransaction;
        },
        TransactionAction::AccountChanges => {
            *page = Page::SelectAccountChange;
        },
    }
    Report::Silent
}

/// The screen that deletes a transaction. `transactions` is what the
/// selected journal resolved to and `answer` what the confirmation returned.
/// A transaction that is confirmed goes, with its account changes, and the
/// list of transactions comes next; one that is not stays on view.
pub fn delete_transaction(
    page: &mut Page,
    transactions: Option<&mut IdMap<Transaction>>,
    transaction_id: &Option<String>,
    answer: Result<bool, String>,
) -> (report: Report)
    ensures
        match transactions {
            None => *final(page) == Page::SelectAccount && report == Report::NotFound,
            Some(registry) => match (lookup(registry@, key_view(*transaction_id)), answer) {
                (None, _) => {
                    &&& *final(registry) == *registry
                    &&& *final(page) == Page::SelectAccount
                    &&& report == Report::NotFound
                },
                (Some(_), Err(error)) => {
                    &&& *final(registry) == *registry
                    &&& *final(page) == Page::SelectAccount
                    &&& report == Report::Failed(error)
                },
                (Some(_), Ok(false)) => {
                    &&& *final(registry) == *registry
                    &&& *final(page) == Page::ViewTransaction
                    &&& report == Report::Silent
                },
                (Some(_), Ok(true)) => {
                    &&& final(registry)@ == registry@.remove(transaction_id->0@)
                    &&& *final(page) == Page::SelectTransaction
                    &&& report == Report::Silent
                },
            },
        },
{
    let transactions = match transactions {
        None => {
            return on_not_found(page);
        },
        Some(transactions) => transactions,
    };
    let transaction_id = match transaction_id {
        None => {
            return on_not_found(page);
        },
        Some(id) => id,
    };
    if !transactions.contains_key(transaction_id) {
        return on_not_found(page);
    }
    let should_delete = match answer {
        Err(error) => {
            return on_error(page, error);
        },
        Ok(should_delete) => should_delete,
    };
    if should_delete {
        transactions.remove(transaction_id);
        *page = Page::SelectTransaction;
    } else {
        *page = Page::ViewTransaction;
    }
    Report::Silent
}

} // verus!
