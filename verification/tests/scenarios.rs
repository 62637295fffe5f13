use ledger::account::{AccountType, BalanceType};
use ledger::account_change_controller::{account_choices, select_account_change_options};
use ledger::account_controller::{select_account_options, AccountEntry};
use ledger::id_map::IdMap;
use ledger::journal::Journal;
use ledger::journal_controller::{select_journal_options, JournalAction};
use ledger::listing::Selection;
use ledger::page::Page;
use ledger::session::Session;
use ledger::transaction_controller::{
    select_transaction_options, TransactionAction, TransactionEntry,
};
use ledger::unwrapper::{
    get_account, get_account_changes, get_accounts, get_journal, get_transaction,
    get_transactions,
};
use ledger::utility::{labels, EntityAction, Report};

/// A session that has made the journal "Books" with the account "Cash" and
/// the transaction "Pay rent" of 2024/1/5, and has the transaction on view.
fn books_with_rent() -> (IdMap<Journal>, Session) {
    let mut journals: IdMap<Journal> = IdMap::new();
    let mut session = Session::new();
    assert_eq!(session.page, Page::SelectJournal);

    assert_eq!(session.select_journal(&journals, Ok(Selection::New)), Report::Silent);
    assert_eq!(session.page, Page::NewJournal);
    assert_eq!(session.new_journal(&mut journals, Ok("Books".to_string())), Report::Silent);
    assert_eq!(session.page, Page::SelectJournal);

    let options = select_journal_options(&journals);
    assert_eq!(labels(&options), vec!["Books", "[New Journal]", "[Quit]"]);
    assert_eq!(session.select_journal(&journals, Ok(options[0].item.clone())), Report::Silent);
    assert_eq!(session.page, Page::ViewJournal);
    assert!(session.journal_id.is_some());

    assert_eq!(session.view_journal(&mut journals, Ok(JournalAction::Accounts)), Report::Silent);
    assert_eq!(session.page, Page::SelectAccount);
    assert_eq!(session.select_account(&mut journals, Ok(Selection::New)), Report::Silent);
    assert_eq!(session.page, Page::NewAccount);
    let cash = AccountEntry {
        name: "Cash".to_string(),
        balance_type: BalanceType::Debit,
        account_type: AccountType::Asset,
    };
    assert_eq!(session.new_account(&mut journals, Ok(cash)), Report::Silent);
    assert_eq!(session.page, Page::SelectAccount);
    assert_eq!(session.select_account(&mut journals, Ok(Selection::Back)), Report::Silent);
    assert_eq!(session.page, Page::ViewJournal);

    assert_eq!(
        session.view_journal(&mut journals, Ok(JournalAction::Transactions)),
        Report::Silent
    );
    assert_eq!(session.page, Page::SelectTransaction);
    assert_eq!(session.select_transaction(&mut journals, Ok(Selection::New)), Report::Silent);
    assert_eq!(session.page, Page::NewTransaction);
    let rent = TransactionEntry {
        name: "Pay rent".to_string(),
        year: 2024,
        month: 1,
        day: 5,
        description: "".to_string(),
    };
    assert_eq!(session.new_transaction(&mut journals, Ok(rent)), Report::Silent);
    assert_eq!(session.page, Page::SelectTransaction);

    let options =
        select_transaction_options(get_transactions(&journals, &session.journal_id).unwrap());
    assert_eq!(labels(&options), vec!["2024/1/5: Pay rent", "[New Transaction]", "[Back]"]);
    assert_eq!(
        session.select_transaction(&mut journals, Ok(options[0].item.clone())),
        Report::Silent
    );
    assert_eq!(session.page, Page::ViewTransaction);
    assert!(session.transaction_id.is_some());
    (journals, session)
}

#[test]
fn happy_path() {
    let (mut journals, mut session) = books_with_rent();
    let journal = get_journal(&journals, &session.journal_id).unwrap();
    assert_eq!(journal.name, "Books");
    assert_eq!(journal.accounts.len(), 1);
    let cash = journal.accounts.value_at(0);
    assert_eq!(cash.name, "Cash");
    assert_eq!(cash.balance_type, BalanceType::Debit);
    assert_eq!(cash.account_type, AccountType::Asset);
    let rent = get_transaction(&journals, &session.journal_id, &session.transaction_id).unwrap();
    assert_eq!(rent.date, "2024/1/5");
    assert_eq!(rent.name, "Pay rent");

    assert_eq!(
        session.view_transaction(&mut journals, Ok(TransactionAction::AccountChanges)),
        Report::Silent
    );
    assert_eq!(session.page, Page::SelectAccountChange);
    assert_eq!(session.select_account_change(&mut journals, Ok(Selection::New)), Report::Silent);
    assert_eq!(session.page, Page::NewAccountChange);

    let accounts = account_choices(get_accounts(&journals, &session.journal_id).unwrap());
    assert_eq!(labels(&accounts), vec!["Cash"]);
    let report = session.new_account_change(
        "usd".to_string(),
        &mut journals,
        Ok(BalanceType::Debit),
        Ok(accounts[0].item.clone()),
        Ok(format!("{}", 100.0_f64)),
    );
    assert_eq!(report, Report::Silent);
    assert_eq!(session.page, Page::SelectAccountChange);
    assert_eq!(
        get_account_changes(&journals, &session.journal_id, &session.transaction_id).unwrap().len(),
        1
    );

    let options = select_account_change_options(
        get_account_changes(&journals, &session.journal_id, &session.transaction_id).unwrap(),
        &journals,
        &session.journal_id,
    );
    assert_eq!(labels(&options), vec!["D - Cash: 100", "[New Account Change]", "[Back]"]);
    assert_eq!(
        session.select_account_change(&mut journals, Ok(options[0].item.clone())),
        Report::Silent
    );
    assert_eq!(session.page, Page::ViewAccountChange);
    assert_eq!(
        session.view_account_change(&mut journals, Ok(EntityAction::Delete)),
        Report::Silent
    );
    assert_eq!(session.page, Page::DeleteAccountChange);
    assert_eq!(session.delete_account_change(&mut journals, Ok(true)), Report::Silent);
    assert_eq!(session.page, Page::SelectAccountChange);
    assert_eq!(session.account_change_id, None);

    let rent = get_transaction(&journals, &session.journal_id, &session.transaction_id).unwrap();
    assert_eq!(rent.name, "Pay rent");
    assert_eq!(rent.date, "2024/1/5");
    assert_eq!(rent.account_changes.len(), 0);
    assert_eq!(journals.len(), 1);
}

#[test]
fn dangling_selection() {
    let (mut journals, mut session) = books_with_rent();
    assert_eq!(session.view_transaction(&mut journals, Ok(TransactionAction::Back)), Report::Silent);
    assert_eq!(session.select_transaction(&mut journals, Ok(Selection::Back)), Report::Silent);
    assert_eq!(session.view_journal(&mut journals, Ok(JournalAction::Accounts)), Report::Silent);
    let options = select_account_options(get_journal(&journals, &session.journal_id).unwrap());
    assert_eq!(labels(&options), vec!["Cash", "[New Account]", "[Back]"]);
    assert_eq!(session.select_account(&mut journals, Ok(options[0].item.clone())), Report::Silent);
    assert_eq!(session.page, Page::ViewAccount);
    assert!(get_account(&journals, &session.journal_id, &session.account_id).is_some());

    let owner = session.journal_id.clone().unwrap();
    assert!(journals.remove(&owner).is_some());

    let report = session.view_account(&mut journals, Ok(EntityAction::Display));
    assert_eq!(report, Report::NotFound);
    assert_eq!(report.message(), Some("Not Found".to_string()));
    assert_eq!(session.page, Page::SelectAccount);
    assert_eq!(session.journal_id, None);
    assert_eq!(session.account_id, None);
    assert_eq!(session.transaction_id, None);
    assert_eq!(journals.len(), 0);
}

#[test]
fn confirm_decline() {
    let (mut journals, mut session) = books_with_rent();
    assert_eq!(
        session.view_transaction(&mut journals, Ok(TransactionAction::Delete)),
        Report::Silent
    );
    assert_eq!(session.page, Page::DeleteTransaction);
    let selected = session.transaction_id.clone();

    assert_eq!(session.delete_transaction(&mut journals, Ok(false)), Report::Silent);
    assert_eq!(session.page, Page::ViewTransaction);
    assert_eq!(session.transaction_id, selected);
    let transactions = get_transactions(&journals, &session.journal_id).unwrap();
    assert_eq!(transactions.len(), 1);
    let rent = transactions.get(&selected.unwrap()).unwrap();
    assert_eq!(rent.name, "Pay rent");
    assert_eq!(rent.date, "2024/1/5");
    assert_eq!(rent.description, "");
    assert_eq!(rent.account_changes.len(), 0);
}

#[test]
fn quit_ends_the_session() {
    let journals: IdMap<Journal> = IdMap::new();
    let mut session = Session::new();
    assert!(!session.terminate_signal);
    assert_eq!(session.select_journal(&journals, Ok(Selection::Back)), Report::Silent);
    assert!(session.terminate_signal);
    assert_eq!(session.page, Page::SelectJournal);
}
