//! The four screens of accounts.

use crate::account::{Account, AccountType, AccountView, BalanceType};
use crate::id_map::IdMap;
use crate::ident::is_id_text;
use crate::journal::Journal;
use crate::listing::{
    is_menu, lemma_as_map_labelled, menu, rows_of, texts, ties_in_order, Selection,
};
use crate::page::Page;
use crate::utility::{key_view, lookup, on_error, on_not_found, EntityAction, LabeledItem, Report};
use vstd::prelude::*;
use vstd::string::*;

verus! {

/// What the prompts for a new account returned: its name, the side of its
/// balance and its kind.
#[derive(Debug)]
pub struct AccountEntry {
    pub name: String,
    pub balance_type: BalanceType,
    pub account_type: AccountType,
}

/// The sides to choose from: "Debit", then "Credit".
pub fn balance_type_options() -> (options: Vec<LabeledItem<BalanceType>>)
    ensures
        options@.len() == 2,
        options@[0].label@ == "Debit"@ && options@[0].item == BalanceType::Debit,
        options@[1].label@ == "Credit"@ && options@[1].item == BalanceType::Credit,
{
    let mut options: Vec<LabeledItem<BalanceType>> = Vec::new();
    options.push(LabeledItem::from(String::from_str("Debit"), BalanceType::Debit));
    options.push(LabeledItem::from(String::from_str("Credit"), BalanceType::Credit));
    options
}

/// The kinds of account to choose from: "Liability", "Asset", then "Equity".
pub fn account_type_options() -> (options: Vec<LabeledItem<AccountType>>)
    ensures
        options@.len() == 3,
        options@[0].label@ == "Liability"@ && options@[0].item == AccountType::Liability,
        options@[1].label@ == "Asset"@ && options@[1].item == AccountType::Asset,
        options@[2].label@ == "Equity"@ && options@[2].item == AccountType::Equity,
{
    let mut options: Vec<LabeledItem<AccountType>> = Vec::new();
    options.push(LabeledItem::from(String::from_str("Liability"), AccountType::Liability));
    options.push(LabeledItem::from(String::from_str("Asset"), AccountType::Asset));
    options.push(LabeledItem::from(String::from_str("Equity"), AccountType::Equity));
    options
}

/// Puts `account` among `accounts` under its own identifier, in place of any
/// account that was there under it, and turns to the list of accounts.
pub fn add_account(accounts: &mut IdMap<Account>, page: &mut Page, account: Account)
    ensures
        final(accounts)@ == old(accounts)@.insert(account@.id, account@),
        *final(page) == Page::SelectAccount,
{
    accounts.insert(account.id.clone(), account);
    *page = Page::SelectAccount;
}

/// The screen that makes an account. `accounts` is what the selected journal
/// resolved to and `answer` what the prompts returned, or the failure of the
/// first prompt that failed. An answer makes an account that nothing refers
/// to, under a new random identifier; the list of accounts comes next.
pub fn new_account(
    accounts: Option<&mut IdMap<Account>>,
    page: &mut Page,
    answer: Result<AccountEntry, String>,
) -> (report: Report)
    ensures
        match (accounts, answer) {
            (None, _) => *final(page) == Page::SelectAccount && report == Report::NotFound,
            (Some(registry), Err(error)) => {
                &&& *final(registry) == *registry
                &&& *final(page) == Page::SelectAccount
                &&& report == Report::Failed(error)
            },
            (Some(registry), Ok(entry)) => {
                &&& exists|id: Seq<char>|
                    #[trigger] is_id_text(id) && final(registry)@ == registry@.insert(
                        id,
                        AccountView {
                            id,
                            name: entry.name@,
                            balance_type: entry.balance_type,
                            account_type: entry.account_type,
                            reference_count: 0,
                        },
                    )
                &&& *final(page) == Page::SelectAccount
                &&& report == Report::Silent
            },
        },
{
    let accounts = match accounts {
        None => {
            return on_not_found(page);
        },
        Some(accounts) => accounts,
    };
    let entry = match answer {
        Err(error) => {
            return on_error(page, error);
        },
        Ok(entry) => entry,
    };
    let account = Account::new(entry.name, entry.balance_type, entry.account_type);
    proof {
        assert(is_id_text(account@.id));
    }
    add_account(accounts, page, account);
    Report::Silent
}

/// The name of an account as a value.
pub open spec fn account_label(account: AccountView) -> Seq<char> {
    account.name
}

/// The list that the selection of accounts offers for `journal`: every
/// account under its name, by ascending name, then "[New Account]" and
/// "[Back]".
pub fn select_account_options(journal: &Journal) -> (options: Vec<LabeledItem<Selection>>)
    ensures
        is_menu(
            options@,
            journal@.accounts.map_values(|account: AccountView| account_label(account)),
            "[New Account]"@,
            "[Back]"@,
        ),
        ties_in_order(rows_of(options@.take(options@.len() - 2)), journal.accounts.entries()),
{
    let accounts = &journal.accounts;
    let mut labels: Vec<String> = Vec::new();
    let mut i: usize = 0;
    let n: usize = accounts.len();
    while i < n
        invariant
            i <= n,
            n == accounts.entries().len(),
            labels@.len() == i,
            forall|j: int| 0 <= j < i ==> #[trigger] labels@[j]@ == accounts.entries()[j].1.name,
        decreases n - i,
    {
        labels.push(accounts.value_at(i).name.clone());
        i += 1;
    }
    proof {
        use_type_invariant(accounts);
        lemma_as_map_labelled(
            accounts.entries(),
            texts(labels@),
            |account: AccountView| account_label(account),
        );
    }
    menu(accounts, &labels, "[New Account]", "[Back]")
}

/// The screen that selects an account. `journal` is what the selected
/// journal resolved to and `answer` the choice that was made from the list,
/// or the prompt's failure. The selection is emptied first. An account that
/// is there becomes the selection and goes on view; making a new one leads
/// to its screen; going back leads to the journal on view. The journal is
/// left as it is.
pub fn select_account(
    account_id: &mut Option<String>,
    journal: Option<&mut Journal>,
    page: &mut Page,
    answer: Result<Selection, String>,
) -> (report: Report)
    ensures
        journal matches Some(selected) ==> *final(selected) == *selected,
        match (journal, answer) {
            (None, _) => {
                &&& *final(account_id) is None
                &&& *final(page) == Page::SelectAccount
                &&& report == Report::NotFound
            },
            (Some(_), Err(error)) => {
                &&& *final(account_id) is None
                &&& *final(page) == Page::SelectAccount
                &&& report == Report::Failed(error)
            },
            (Some(selected), Ok(Selection::Entity(id))) => if selected@.accounts.contains_key(id@) {
                &&& key_view(*final(account_id)) == Some(selected@.accounts[id@].id)
                &&& *final(page) == Page::ViewAccount
                &&& report == Report::Silent
            } else {
                &&& *final(account_id) is None
                &&& *final(page) == Page::SelectAccount
                &&& report == Report::NotFound
            },
            (Some(_), Ok(Selection::New)) => {
                &&& *final(account_id) is None
                &&& *final(page) == Page::NewAccount
                &&& report == Report::Silent
            },
            (Some(_), Ok(Selection::Back)) => {
                &&& *final(account_id) is None
                &&& *final(page) == Page::ViewJournal
                &&& report == Report::Silent
            },
        },
{
    *account_id = None;
    let journal = match journal {
        None => {
            return on_not_found(page);
        },
        Some(journal) => journal,
    };
    let selection = match answer {
        Err(error) => {
            return on_error(page, error);
        },
        Ok(selection) => selection,
    };
    match selection {
        Selection::Entity(id) => {
            match journal.accounts.get(&id) {
                None => {
                    return on_not_found(page);
                },
                Some(account) => {
                    *account_id = Some(account.id.clone());
                    *page = Page::ViewAccount;
                },
            }
        },
        Selection::New => {
            *page = Page::NewAccount;
        },
        Selection::Back => {
            *page = Page::ViewJournal;
        },
    }
    Report::Silent
}

/// The page that follows an action on the account on view, which is shown
/// on `page`.
pub open spec fn after_account_action(page: Page, action: EntityAction) -> Page {
    match action {
        EntityAction::Display => page,
        EntityAction::Back => Page::SelectAccount,
        EntityAction::Delete => Page::DeleteAccount,
    }
}

/// The screen that views an account. `account` is what the selection
/// resolved to and `answer` the action that was chosen, or the prompt's
/// failure. The account is left as it is.
pub fn view_account(
    account: Option<&mut Account>,
    page: &mut Page,
    answer: Result<EntityAction, String>,
) -> (report: Report)
    ensures
        account matches Some(viewed) ==> *final(viewed) == *viewed,
        match (account, answer) {
            (None, _) => *final(page) == Page::SelectAccount && report == Report::NotFound,
            (Some(_), Err(error)) => *final(page) == Page::SelectAccount && report
                == Report::Failed(error),
            (Some(_), Ok(action)) => *final(page) == after_account_action(*old(page), action)
                && report == if action == EntityAction::Display {
                Report::Display
            } else {
                Report::Silent
            },
        },
{
    if account.is_none() {
        return on_not_found(page);
    }
    let selection = match answer {
        Err(error) => {
            return on_error(page, error);
        },
        Ok(selection) => selection,
    };
    match selection {
        EntityAction::Display => {
            return Report::Display;
        },
        EntityAction::Back => {
            *page = Page::SelectAccount;
        },
        EntityAction::Delete => {
            *page = Page::DeleteAccount;
        },
    }
    Report::Silent
}

/// The screen that deletes an account. `accounts` is what the selected
/// journal resolved to and `answer` what the confirmation returned. An
/// account that is confirmed goes and the list of accounts comes next; one
/// that is not stays on view.
pub fn delete_account(
    accounts: Option<&mut IdMap<Account>>,
    account_id: &Option<String>,
    page: &mut Page,
    answer: Result<bool, String>,
) -> (report: Report)
    ensures
        match accounts {
            None => *final(page) == Page::SelectAccount && report == Report::NotFound,
            Some(registry) => match (lookup(registry@, key_view(*account_id)), answer) {
                (None, _) => {
                    &&& *final(registry) == *registry
                    &&& *final(page) == Page::SelectAccount
                    &&& report == Report::NotFound
                },
                (Some(_), Err(error)) => {
                    &&& *final(registry) == *registry
                    &&& *final(page) == Page::SelectAccount
                    &&& report == Report::Failed(error)
                },
                (Some(_), Ok(false)) => {
                    &&& *final(registry) == *registry
                    &&& *final(page) == Page::ViewAccount
                    &&& report == Report::Silent
                },
                (Some(_), Ok(true)) => {
                    &&& final(registry)@ == registry@.remove(account_id->0@)
                    &&& *final(page) == Page::SelectAccount
                    &&& report == Report::Silent
                },
            },
        },
{
    let accounts = match accounts {
        None => {
            return on_not_found(page);
        },
        Some(accounts) => accounts,
    };
    let account_id = match account_id {
        None => {
            return on_not_found(page);
        },
        Some(id) => id,
    };
    if !accounts.contains_key(account_id) {
        return on_not_found(page);
    }
    let should_delete = match answer {
        Err(error) => {
            return on_error(page, error);
        },
        Ok(should_delete) => should_delete,
    };
    if should_delete {
        accounts.remove(account_id);
        *page = Page::SelectAccount;
    } else {
        *page = Page::ViewAccount;
    }
    Report::Silent
}

} // verus!
