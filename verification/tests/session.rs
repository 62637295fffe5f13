use ledger::account::{Account, AccountType, BalanceType};
use ledger::account_change::AccountChange;
use ledger::id_map::IdMap;
use ledger::journal::Journal;
use ledger::listing::Selection;
use ledger::page::Page;
use ledger::session::Session;
use ledger::transaction::Transaction;
use ledger::unwrapper::{get_account, get_account_change, get_journal, get_transaction};
use ledger::utility::{EntityAction, Report};

fn some(id: &str) -> Option<String> {
    Some(id.to_string())
}

/// Two journals with an account, a transaction and an account change each:
/// "j1" with "a1", "t1", "c1" and "j2" with "a2", "t2", "c2".
fn sample() -> IdMap<Journal> {
    let mut journals: IdMap<Journal> = IdMap::new();
    for n in ["1", "2"] {
        let mut journal = Journal::with_id(format!("j{}", n), format!("Journal {}", n));
        journal.accounts.insert(
            format!("a{}", n),
            Account::with_id(format!("a{}", n), "Cash".to_string(), BalanceType::Debit, AccountType::Asset),
        );
        let mut transaction = Transaction::with_id(
            format!("t{}", n),
            "2024/1/5".to_string(),
            "Pay rent".to_string(),
            "".to_string(),
        );
        transaction.account_changes.insert(
            format!("c{}", n),
            AccountChange::with_id(
                format!("c{}", n),
                format!("a{}", n),
                "usd".to_string(),
                BalanceType::Debit,
                "100".to_string(),
            ),
        );
        journal.transactions.insert(format!("t{}", n), transaction);
        journals.insert(format!("j{}", n), journal);
    }
    journals
}

fn all_of_one(page: Page) -> Session {
    Session {
        page,
        journal_id: some("j1"),
        account_id: some("a1"),
        transaction_id: some("t1"),
        account_change_id: some("c1"),
        terminate_signal: false,
    }
}

fn resolves(session: &Session, journals: &IdMap<Journal>) -> bool {
    (session.journal_id.is_none() || get_journal(journals, &session.journal_id).is_some())
        && (session.account_id.is_none()
            || get_account(journals, &session.journal_id, &session.account_id).is_some())
        && (session.transaction_id.is_none()
            || get_transaction(journals, &session.journal_id, &session.transaction_id).is_some())
        && (session.account_change_id.is_none()
            || get_account_change(
                journals,
                &session.journal_id,
                &session.transaction_id,
                &session.account_change_id,
            )
            .is_some())
}

#[test]
fn a_session_starts_at_the_selection_of_journals() {
    let session = Session::new();
    assert_eq!(session.page, Page::SelectJournal);
    assert_eq!(session.journal_id, None);
    assert_eq!(session.account_id, None);
    assert_eq!(session.transaction_id, None);
    assert_eq!(session.account_change_id, None);
    assert!(!session.terminate_signal);
}

#[test]
fn prune_keeps_what_resolves() {
    let journals = sample();
    let mut session = all_of_one(Page::ViewAccountChange);
    session.prune(&journals);
    assert_eq!(session.journal_id, some("j1"));
    assert_eq!(session.account_id, some("a1"));
    assert_eq!(session.transaction_id, some("t1"));
    assert_eq!(session.account_change_id, some("c1"));
    assert_eq!(session.page, Page::ViewAccountChange);
}

#[test]
fn prune_drops_what_leads_nowhere() {
    let journals = sample();
    let mut session = all_of_one(Page::ViewJournal);
    session.journal_id = some("j2");
    session.prune(&journals);
    assert_eq!(session.journal_id, some("j2"));
    assert_eq!(session.account_id, None);
    assert_eq!(session.transaction_id, None);
    assert_eq!(session.account_change_id, None);

    let mut session = all_of_one(Page::ViewJournal);
    session.transaction_id = some("t2");
    session.prune(&journals);
    assert_eq!(session.journal_id, some("j1"));
    assert_eq!(session.account_id, some("a1"));
    assert_eq!(session.transaction_id, None);
    assert_eq!(session.account_change_id, None);

    let mut session = all_of_one(Page::ViewJournal);
    session.journal_id = None;
    session.prune(&journals);
    assert_eq!(session.journal_id, None);
    assert_eq!(session.account_id, None);
    assert_eq!(session.transaction_id, None);
    assert_eq!(session.account_change_id, None);
}

#[test]
fn selecting_a_journal_empties_the_selections_below() {
    let journals = sample();
    let mut session = all_of_one(Page::SelectJournal);
    let report = session.select_journal(&journals, Ok(Selection::Entity("j2".to_string())));
    assert_eq!(report, Report::Silent);
    assert_eq!(session.page, Page::ViewJournal);
    assert_eq!(session.journal_id, some("j2"));
    assert_eq!(session.account_id, None);
    assert_eq!(session.transaction_id, None);
    assert_eq!(session.account_change_id, None);
}

#[test]
fn selecting_a_transaction_empties_the_selection_below() {
    let mut journals = sample();
    let mut session = all_of_one(Page::SelectTransaction);
    let report = session.select_transaction(&mut journals, Ok(Selection::Entity("t1".to_string())));
    assert_eq!(report, Report::Silent);
    assert_eq!(session.page, Page::ViewTransaction);
    assert_eq!(session.journal_id, some("j1"));
    assert_eq!(session.account_id, some("a1"));
    assert_eq!(session.transaction_id, some("t1"));
    assert_eq!(session.account_change_id, None);
}

#[test]
fn deleting_a_journal_empties_every_selection() {
    let mut journals = sample();
    let mut session = all_of_one(Page::DeleteJournal);
    assert_eq!(session.delete_journal(&mut journals, Ok(true)), Report::Silent);
    assert_eq!(session.page, Page::SelectJournal);
    assert_eq!(session.journal_id, None);
    assert_eq!(session.account_id, None);
    assert_eq!(session.transaction_id, None);
    assert_eq!(session.account_change_id, None);
    assert_eq!(journals.len(), 1);
    assert!(get_journal(&journals, &some("j1")).is_none());
    assert!(get_account(&journals, &some("j1"), &some("a1")).is_none());
    assert!(get_account_change(&journals, &some("j2"), &some("t2"), &some("c2")).is_some());
}

#[test]
fn deleting_an_account_empties_its_selection() {
    let mut journals = sample();
    let mut session = all_of_one(Page::DeleteAccount);
    assert_eq!(session.delete_account(&mut journals, Ok(true)), Report::Silent);
    assert_eq!(session.page, Page::SelectAccount);
    assert_eq!(session.journal_id, some("j1"));
    assert_eq!(session.account_id, None);
    assert_eq!(session.transaction_id, some("t1"));
    assert_eq!(session.account_change_id, some("c1"));
    assert!(get_account(&journals, &some("j1"), &some("a1")).is_none());
}

#[test]
fn deleting_a_transaction_empties_its_selection_and_the_one_below() {
    let mut journals = sample();
    let mut session = all_of_one(Page::DeleteTransaction);
    assert_eq!(session.delete_transaction(&mut journals, Ok(true)), Report::Silent);
    assert_eq!(session.page, Page::SelectTransaction);
    assert_eq!(session.journal_id, some("j1"));
    assert_eq!(session.account_id, some("a1"));
    assert_eq!(session.transaction_id, None);
    assert_eq!(session.account_change_id, None);
    assert!(get_transaction(&journals, &some("j1"), &some("t1")).is_none());
}

#[test]
fn deleting_an_account_change_empties_its_selection() {
    let mut journals = sample();
    let mut session = all_of_one(Page::DeleteAccountChange);
    assert_eq!(session.delete_account_change(&mut journals, Ok(true)), Report::Silent);
    assert_eq!(session.page, Page::SelectAccountChange);
    assert_eq!(session.transaction_id, some("t1"));
    assert_eq!(session.account_change_id, None);
    assert_eq!(get_transaction(&journals, &some("j1"), &some("t1")).unwrap().account_changes.len(), 0);
}

#[test]
fn declining_a_deletion_keeps_every_selection() {
    let mut journals = sample();
    let mut session = all_of_one(Page::DeleteJournal);
    assert_eq!(session.delete_journal(&mut journals, Ok(false)), Report::Silent);
    assert_eq!(session.page, Page::ViewJournal);
    session.page = Page::DeleteAccount;
    assert_eq!(session.delete_account(&mut journals, Ok(false)), Report::Silent);
    assert_eq!(session.page, Page::ViewAccount);
    session.page = Page::DeleteTransaction;
    assert_eq!(session.delete_transaction(&mut journals, Ok(false)), Report::Silent);
    assert_eq!(session.page, Page::ViewTransaction);
    session.page = Page::DeleteAccountChange;
    assert_eq!(session.delete_account_change(&mut journals, Ok(false)), Report::Silent);
    assert_eq!(session.page, Page::ViewAccountChange);
    assert_eq!(session.journal_id, some("j1"));
    assert_eq!(session.account_id, some("a1"));
    assert_eq!(session.transaction_id, some("t1"));
    assert_eq!(session.account_change_id, some("c1"));
    assert_eq!(journals.len(), 2);
    assert!(get_account_change(&journals, &some("j1"), &some("t1"), &some("c1")).is_some());
}

#[test]
fn a_failed_prompt_falls_back_to_the_selection_of_accounts() {
    let mut journals = sample();
    let failed = Report::Failed("closed".to_string());
    let mut session = all_of_one(Page::ViewJournal);
    assert_eq!(session.view_journal(&mut journals, Err("closed".to_string())), failed);
    assert_eq!(session.page, Page::SelectAccount);
    let mut session = all_of_one(Page::ViewTransaction);
    assert_eq!(session.view_transaction(&mut journals, Err("closed".to_string())), failed);
    assert_eq!(session.page, Page::SelectAccount);
    let mut session = all_of_one(Page::ViewAccountChange);
    assert_eq!(session.view_account_change(&mut journals, Err("closed".to_string())), failed);
    assert_eq!(session.page, Page::SelectAccount);
    let mut session = all_of_one(Page::NewTransaction);
    assert_eq!(session.new_transaction(&mut journals, Err("closed".to_string())), failed);
    assert_eq!(session.page, Page::SelectAccount);
    let mut session = all_of_one(Page::NewAccount);
    assert_eq!(session.new_account(&mut journals, Err("closed".to_string())), failed);
    assert_eq!(session.page, Page::SelectAccount);
    let mut session = all_of_one(Page::NewJournal);
    assert_eq!(session.new_journal(&mut journals, Err("closed".to_string())), failed);
    assert_eq!(session.page, Page::SelectAccount);
    assert_eq!(journals.len(), 2);
}

#[test]
fn a_stale_selection_is_reported_and_dropped() {
    let mut journals = sample();
    let mut session = all_of_one(Page::ViewAccountChange);
    session.transaction_id = some("t2");
    let report = session.view_account_change(&mut journals, Ok(EntityAction::Back));
    assert_eq!(report, Report::NotFound);
    assert_eq!(session.page, Page::SelectAccount);
    assert_eq!(session.journal_id, some("j1"));
    assert_eq!(session.account_id, some("a1"));
    assert_eq!(session.transaction_id, None);
    assert_eq!(session.account_change_id, None);
}

#[test]
fn every_screen_leaves_selections_that_resolve() {
    let pages = [
        Page::SelectJournal,
        Page::ViewJournal,
        Page::DeleteJournal,
        Page::SelectAccount,
        Page::ViewAccount,
        Page::DeleteAccount,
        Page::SelectTransaction,
        Page::ViewTransaction,
        Page::DeleteTransaction,
        Page::SelectAccountChange,
        Page::ViewAccountChange,
        Page::DeleteAccountChange,
    ];
    for page in pages {
        for confirmed in [true, false] {
            let mut journals = sample();
            let mut session = all_of_one(page);
            match page {
                Page::SelectJournal => {
                    session.select_journal(&journals, Ok(Selection::Entity("j2".to_string())));
                }
                Page::ViewJournal => {
                    session.view_journal(&mut journals, Err("closed".to_string()));
                }
                Page::DeleteJournal => {
                    session.delete_journal(&mut journals, Ok(confirmed));
                }
                Page::SelectAccount => {
                    session.select_account(&mut journals, Ok(Selection::Entity("a2".to_string())));
                }
                Page::ViewAccount => {
                    session.view_account(&mut journals, Ok(EntityAction::Delete));
                }
                Page::DeleteAccount => {
                    session.delete_account(&mut journals, Ok(confirmed));
                }
                Page::SelectTransaction => {
                    session.select_transaction(&mut journals, Ok(Selection::Back));
                }
                Page::ViewTransaction => {
                    session.view_transaction(&mut journals, Err("closed".to_string()));
                }
                Page::DeleteTransaction => {
                    session.delete_transaction(&mut journals, Ok(confirmed));
                }
                Page::SelectAccountChange => {
                    session.select_account_change(&mut journals, Ok(Selection::Entity("c1".to_string())));
                }
                Page::ViewAccountChange => {
                    session.view_account_change(&mut journals, Ok(EntityAction::Back));
                }
                _ => {
                    session.delete_account_change(&mut journals, Ok(confirmed));
                }
            }
            assert!(resolves(&session, &journals));
            assert!(!session.terminate_signal);
        }
    }
}
