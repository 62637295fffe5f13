//! The four screens of account changes.

use crate::account::{Account, BalanceType};
use crate::account_change::{change_label, AccountChange, AccountChangeView};
use crate::id_map::IdMap;
use crate::ident::is_id_text;
use crate::journal::Journal;
use crate::listing::{
    is_menu, lemma_as_map_labelled, menu, rows_of, texts, ties_in_order, Selection,
};
use crate::page::Page;
use crate::unwrapper::{
    account_change_of, account_changes_of, accounts_of, get_account_change, get_account_changes,
    get_account_changes_mut, get_accounts, get_transaction_mut, transaction_of,
    with_account_change, with_account_changes,
};
use crate::utility::{key_view, on_error, on_not_found, EntityAction, LabeledItem, Report};
use vstd::prelude::*;
use vstd::string::*;

verus! {

/// The accounts that a new account change can fall on: the identifier of
/// each of `accounts` under its name, in the order in which they are held.
pub fn account_choices(accounts: &IdMap<Account>) -> (choices: Vec<LabeledItem<String>>)
    ensures
        choices@.len() == accounts.entries().len(),
        forall|i: int|
            0 <= i < choices@.len() ==> (#[trigger] choices@[i]).item@ == accounts.entries()[i].0
                && choices@[i].label@ == accounts.entries()[i].1.name,
{
    let mut choices: Vec<LabeledItem<String>> = Vec::new();
    let mut i: usize = 0;
    let n: usize = accounts.len();
    while i < n
        invariant
            i <= n,
            n == accounts.entries().len(),
            choices@.len() == i,
            forall|j: int|
                0 <= j < i ==> (#[trigger] choices@[j]).item@ == accounts.entries()[j].0
                    && choices@[j].label@ == accounts.entries()[j].1.name,
        decreases n - i,
    {
        let name: String = accounts.value_at(i).name.clone();
        let id: String = accounts.key_at(i).clone();
        choices.push(LabeledItem::from(name, id));
        i += 1;
    }
    choices
}

/// The question for the amount of a change on `side`.
pub fn amount_prompt(side: BalanceType) -> (question: String)
    ensures
        question@ == "Enter "@ + (match side {
            BalanceType::Debit => "Debit"@,
            BalanceType::Credit => "Credit"@,
        }) + " Amount:"@,
{
    let mut question: String = String::from_str("Enter ");
    question.append(side.as_str());
    question.append(" Amount:");
    question
}

/// Puts `change` among the account changes of the selected transaction,
/// under its own identifier and in place of any change that was there under
/// it, and turns to the list of account changes. Where the selection leads
/// to no transaction, nothing changes but the page: "Not Found" is reported
/// and the fallback page comes next.
pub fn add_account_change(
    journal_id: &Option<String>,
    journals: &mut IdMap<Journal>,
    page: &mut Page,
    transaction_id: &Option<String>,
    change: AccountChange,
) -> (report: Report)
    ensures
        match transaction_of(old(journals)@, key_view(*journal_id), key_view(*transaction_id)) {
            Some(_) => {
                &&& final(journals)@ == with_account_change(
                    old(journals)@,
                    journal_id->0@,
                    transaction_id->0@,
                    change@.id,
                    change@,
                )
                &&& *final(page) == Page::SelectAccountChange
                &&& report == Report::Silent
            },
            None => {
                &&& final(journals)@ == old(journals)@
                &&& *final(page) == Page::SelectAccount
                &&& report == Report::NotFound
            },
        },
{
    match get_transaction_mut(journals, journal_id, transaction_id) {
        None => {
            return on_not_found(page);
        },
        Some(transaction) => {
            transaction.account_changes.insert(change.id.clone(), change);
        },
    }
    *page = Page::SelectAccountChange;
    Report::Silent
}

/// The screen that makes an account change in `currency_id`. The three
/// answers are what the prompts returned, in the order in which they are
/// made: the side, the account, the amount. A failure is reported from the
/// first prompt that failed; between the side and the account it is found
/// out whether the selected journal is there, and at the end whether the
/// selected transaction is. Answers after a failure or a missing journal are
/// not read. With all three answers the change is made under a new random
/// identifier, and the list of account changes comes next.
pub fn new_account_change(
    currency_id: String,
    journal_id: &Option<String>,
    journals: &mut IdMap<Journal>,
    page: &mut Page,
    transaction_id: &Option<String>,
    credit_or_debit: Result<BalanceType, String>,
    account_id: Result<String, String>,
    amount: Result<String, String>,
) -> (report: Report)
    ensures
        match credit_or_debit {
            Err(error) => {
                &&& final(journals)@ == old(journals)@
                &&& *final(page) == Page::SelectAccount
                &&& report == Report::Failed(error)
            },
            Ok(side) => match (
                accounts_of(old(journals)@, key_view(*journal_id)),
                account_id,
                amount,
            ) {
                (None, _, _) => {
                    &&& final(journals)@ == old(journals)@
                    &&& *final(page) == Page::SelectAccount
                    &&& report == Report::NotFound
                },
                (Some(_), Err(error), _) => {
                    &&& final(journals)@ == old(journals)@
                    &&& *final(page) == Page::SelectAccount
                    &&& report == Report::Failed(error)
                },
                (Some(_), Ok(_), Err(error)) => {
                    &&& final(journals)@ == old(journals)@
                    &&& *final(page) == Page::SelectAccount
                    &&& report == Report::Failed(error)
                },
                (Some(_), Ok(account), Ok(sum)) => match transaction_of(
                    old(journals)@,
                    key_view(*journal_id),
                    key_view(*transaction_id),
                ) {
                    None => {
                        &&& final(journals)@ == old(journals)@
                        &&& *final(page) == Page::SelectAccount
                        &&& report == Report::NotFound
                    },
                    Some(_) => {
                        &&& exists|id: Seq<char>|
                            #[trigger] is_id_text(id) && final(journals)@ == with_account_change(
                                old(journals)@,
                                journal_id->0@,
                                transaction_id->0@,
                                id,
                                AccountChangeView {
                                    id,
                                    account_id: account@,
                                    currency_id: currency_id@,
                                    credit_or_debit: side,
                                    amount: sum@,
                                },
                            )
                        &&& *final(page) == Page::SelectAccountChange
                        &&& report == Report::Silent
                    },
                },
            },
        },
{
    let credit_or_debit = match credit_or_debit {
        Err(error) => {
            return on_error(page, error);
        },
        Ok(credit_or_debit) => credit_or_debit,
    };
    if get_accounts(journals, journal_id).is_none() {
        return on_not_found(page);
    }
    let account_id = match account_id {
        Err(error) => {
            return on_error(page, error);
        },
        Ok(account_id) => account_id,
    };
    let amount = match amount {
        Err(error) => {
            return on_error(page, error);
        },
        Ok(amount) => amount,
    };
    let change = AccountChange::new(account_id, currency_id, credit_or_debit, amount);
    proof {
        assert(is_id_text(change@.id));
    }
    add_account_change(journal_id, journals, page, transaction_id, change)
}

/// The list that the selection of account changes offers for `changes`,
/// the account changes of a transaction of the journal that `journal_id`
/// selects: every account change under its label, by ascending label, then
/// "[New Account Change]" and "[Back]".
pub fn select_account_change_options(
    changes: &IdMap<AccountChange>,
    journals: &IdMap<Journal>,
    journal_id: &Option<String>,
) -> (options: Vec<LabeledItem<Selection>>)
    ensures
        is_menu(
            options@,
            changes@.map_values(
                |change: AccountChangeView| change_label(change, journals@, key_view(*journal_id)),
            ),
            "[New Account Change]"@,
            "[Back]"@,
        ),
        ties_in_order(rows_of(options@.take(options@.len() - 2)), changes.entries()),
{
    let mut labels: Vec<String> = Vec::new();
    let mut i: usize = 0;
    let n: usize = changes.len();
    while i < n
        invariant
            i <= n,
            n == changes.entries().len(),
            labels@.len() == i,
            forall|j: int|
                0 <= j < i ==> #[trigger] labels@[j]@ == change_label(
                    changes.entries()[j].1,
                    journals@,
                    key_view(*journal_id),
                ),
        decreases n - i,
    {
        labels.push(changes.value_at(i).lookup_name(journals, journal_id));
        i += 1;
    }
    proof {
        use_type_invariant(changes);
        lemma_as_map_labelled(
            changes.entries(),
            texts(labels@),
            |change: AccountChangeView| change_label(change, journals@, key_view(*journal_id)),
        );
    }
    menu(changes, &labels, "[New Account Change]", "[Back]")
}

/// The screen that selects an account change. `answer` is the choice that
/// was made from the list, or the prompt's failure. An account change that
/// is there becomes the selection and goes on view; making a new one leads
/// to its screen; going back leads to the transaction on view. Nothing else
/// changes the selection, and the ledger is left as it is.
pub fn select_account_change(
    account_change_id: &mut Option<String>,
    journal_id: &Option<String>,
    journals: &mut IdMap<Journal>,
    page: &mut Page,
    transaction_id: &Option<String>,
    answer: Result<Selection, String>,
) -> (report: Report)
    ensures
        *final(journals) == *old(journals),
        match (
            account_changes_of(old(journals)@, key_view(*journal_id), key_view(*transaction_id)),
            answer,
        ) {
            (None, _) => {
                &&& *final(account_change_id) == *old(account_change_id)
                &&& *final(page) == Page::SelectAccount
                &&& report == Report::NotFound
            },
            (Some(_), Err(error)) => {
                &&& *final(account_change_id) == *old(account_change_id)
                &&& *final(page) == Page::SelectAccount
                &&& report == Report::Failed(error)
            },
            (Some(changes), Ok(Selection::Entity(id))) => if changes.contains_key(id@) {
                &&& key_view(*final(account_change_id)) == Some(changes[id@].id)
                &&& *final(page) == Page::ViewAccountChange
                &&& report == Report::Silent
            } else {
                &&& *final(account_change_id) == *old(account_change_id)
                &&& *final(page) == Page::SelectAccount
                &&& report == Report::NotFound
            },
            (Some(_), Ok(Selection::New)) => {
                &&& *final(account_change_id) == *old(account_change_id)
                &&& *final(page) == Page::NewAccountChange
                &&& report == Report::Silent
            },
            (Some(_), Ok(Selection::Back)) => {
                &&& *final(account_change_id) == *old(account_change_id)
                &&& *final(page) == Page::ViewTransaction
                &&& report == Report::Silent
            },
        },
{
    let changes = match get_account_changes(journals, journal_id, transaction_id) {
        None => {
            return on_not_found(page);
        },
        Some(changes) => changes,
    };
    let selection = match answer {
        Err(error) => {
            return on_error(page, error);
        },
        Ok(selection) => selection,
    };
    match selection {
        Selection::Entity(id) => {
            match changes.get(&id) {
                None => {
                    return on_not_found(page);
                },
                Some(change) => {
                    *account_change_id = Some(change.id.clone());
                    *page = Page::ViewAccountChange;
                },
            }
        },
        Selection::New => {
            *page = Page::NewAccountChange;
        },
        Selection::Back => {
            *page = Page::ViewTransaction;
        },
    }
    Report::Silent
}

/// The page that follows an action on the account change on view, which is
/// shown on `page`.
pub open spec fn after_account_change_action(page: Page, action: EntityAction) -> Page {
    match action {
        EntityAction::Display => page,
        EntityAction::Back => Page::SelectAccountChange,
        EntityAction::Delete => Page::DeleteAccountChange,
    }
}

/// The screen that views an account change. `answer` is the action that was
/// chosen, or the prompt's failure. The selection and the ledger are left as
/// they are.
pub fn view_account_change(
    account_change_id: &mut Option<String>,
    journal_id: &Option<String>,
    journals: &mut IdMap<Journal>,
    page: &mut Page,
    transaction_id: &Option<String>,
    answer: Result<EntityAction, String>,
) -> (report: Report)
    ensures
        *final(journals) == *old(journals),
        *final(account_change_id) == *old(account_change_id),
        match (
            account_change_of(
                old(journals)@,
                key_view(*journal_id),
                key_view(*transaction_id),
                key_view(*old(account_change_id)),
            ),
            answer,
        ) {
            (None, _) => *final(page) == Page::SelectAccount && report == Report::NotFound,
            (Some(_), Err(error)) => *final(page) == Page::SelectAccount && report
                == Report::Failed(error),
            (Some(_), Ok(action)) => *final(page) == after_account_change_action(
                *old(page),
                action,
            ) && report == if action == EntityAction::Display {
                Report::Display
            } else {
                Report::Silent
            },
        },
{
    if get_account_change(journals, journal_id, transaction_id, account_change_id).is_none() {
        return on_not_found(page);
    }
    let selection = match answer {
        Err(error) => {
            return on_error(page, error);
        },
        Ok(selection) => selection,
    };
    match selection {
        EntityAction::Display => {
            return Report::Display;
        },
        EntityAction::Back => {
            *page = Page::SelectAccountChange;
        },
        EntityAction::Delete => {
            *page = Page::DeleteAccountChange;
        },
    }
    Report::Silent
}

/// The screen that deletes an account change. `answer` is what the
/// confirmation returned. An account change that is confirmed goes and the
/// list of account changes comes next; one that is not stays on view.
pub fn delete_account_change(
    account_change_id: &Option<String>,
    journal_id: &Option<String>,
    journals: &mut IdMap<Journal>,
    page: &mut Page,
    transaction_id: &Option<String>,
    answer: Result<bool, String>,
) -> (report: Report)
    ensures
        match (
            account_change_of(
                old(journals)@,
                key_view(*journal_id),
                key_view(*transaction_id),
                key_view(*account_change_id),
            ),
            answer,
        ) {
            (None, _) => {
                &&& *final(journals) == *old(journals)
                &&& *final(page) == Page::SelectAccount
                &&& report == Report::NotFound
            },
            (Some(_), Err(error)) => {
                &&& *final(journals) == *old(journals)
                &&& *final(page) == Page::SelectAccount
                &&& report == Report::Failed(error)
            },
            (Some(_), Ok(false)) => {
                &&& *final(journals) == *old(journals)
                &&& *final(page) == Page::ViewAccountChange
                &&& report == Report::Silent
            },
            (Some(_), Ok(true)) => {
                &&& final(journals)@ == with_account_changes(
                    old(journals)@,
                    journal_id->0@,
                    transaction_id->0@,
                    old(journals)@[journal_id->0@].transactions[transaction_id->0@].account_changes.remove(
                        account_change_id->0@,
                    ),
                )
                &&& *final(page) == Page::SelectAccountChange
                &&& report == Report::Silent
            },
        },
{
    if get_account_change(journals, journal_id, transaction_id, account_change_id).is_none() {
        return on_not_found(page);
    }
    let should_delete = match answer {
        Err(error) => {
            return on_error(page, error);
        },
        Ok(should_delete) => should_delete,
    };
    if should_delete {
        match get_account_changes_mut(journals, journal_id, transaction_id) {
            Some(changes) => {
                match account_change_id {
                    Some(id) => {
                        changes.remove(id);
                    },
                    None => {},
                }
            },
            None => {},
        }
        *page = Page::SelectAccountChange;
    } else {
        *page = Page::ViewAccountChange;
    }
    Report::Silent
}

} // verus!
