use ledger::account::{Account, AccountType, BalanceType};
use ledger::account_change::AccountChange;
use ledger::account_change_controller::{
    account_choices, add_account_change, amount_prompt, delete_account_change,
    new_account_change, select_account_change, select_account_change_options,
    view_account_change,
};
use ledger::id_map::IdMap;
use ledger::journal::Journal;
use ledger::listing::Selection;
use ledger::page::Page;
use ledger::transaction::Transaction;
use ledger::unwrapper::{get_account_changes, get_accounts};
use ledger::utility::{labels, EntityAction, Report};

fn some(id: &str) -> Option<String> {
    Some(id.to_string())
}

fn change(id: &str, account_id: &str, side: BalanceType, amount: &str) -> AccountChange {
    AccountChange::with_id(
        id.to_string(),
        account_id.to_string(),
        "usd".to_string(),
        side,
        amount.to_string(),
    )
}

/// The journal "j1" with the accounts "a1" (Cash) and "a2" (Bank) and the
/// transaction "t1", which holds `changes`.
fn registry(changes: Vec<AccountChange>) -> IdMap<Journal> {
    let mut journal = Journal::with_id("j1".to_string(), "Books".to_string());
    journal.accounts.insert(
        "a1".to_string(),
        Account::with_id("a1".to_string(), "Cash".to_string(), BalanceType::Debit, AccountType::Asset),
    );
    journal.accounts.insert(
        "a2".to_string(),
        Account::with_id("a2".to_string(), "Bank".to_string(), BalanceType::Debit, AccountType::Asset),
    );
    let mut transaction = Transaction::with_id(
        "t1".to_string(),
        "2024/1/5".to_string(),
        "Pay rent".to_string(),
        "".to_string(),
    );
    for change in changes {
        transaction.account_changes.insert(change.id.clone(), change);
    }
    journal.transactions.insert("t1".to_string(), transaction);
    let mut journals: IdMap<Journal> = IdMap::new();
    journals.insert("j1".to_string(), journal);
    journals
}

#[test]
fn lookup_name_shows_side_account_and_amount() {
    let journals = registry(Vec::new());
    let debit = change("c1", "a1", BalanceType::Debit, "100");
    assert_eq!(debit.lookup_name(&journals, &some("j1")), "D - Cash: 100");
    let credit = change("c2", "a2", BalanceType::Credit, "12.5");
    assert_eq!(credit.lookup_name(&journals, &some("j1")), "C - Bank: 12.5");
}

#[test]
fn lookup_name_shows_the_error_token_for_a_missing_account() {
    let journals = registry(Vec::new());
    let stray = change("c1", "a9", BalanceType::Debit, "100");
    assert_eq!(stray.lookup_name(&journals, &some("j1")), "D - [ERROR]: 100");
}

#[test]
fn lookup_name_is_the_error_token_without_a_journal() {
    let journals = registry(Vec::new());
    let debit = change("c1", "a1", BalanceType::Debit, "100");
    assert_eq!(debit.lookup_name(&journals, &None), "[ERROR]");
    assert_eq!(debit.lookup_name(&journals, &some("j9")), "[ERROR]");
}

#[test]
fn account_choices_offer_each_account_under_its_name() {
    let journals = registry(Vec::new());
    let choices = account_choices(get_accounts(&journals, &some("j1")).unwrap());
    assert_eq!(labels(&choices), vec!["Cash", "Bank"]);
    assert_eq!(choices[0].item, "a1");
    assert_eq!(choices[1].item, "a2");
    assert_eq!(account_choices(&IdMap::new()).len(), 0);
}

#[test]
fn amount_prompt_names_the_side() {
    assert_eq!(amount_prompt(BalanceType::Debit), "Enter Debit Amount:");
    assert_eq!(amount_prompt(BalanceType::Credit), "Enter Credit Amount:");
}

#[test]
fn add_account_change_puts_it_into_the_transaction() {
    let mut journals = registry(Vec::new());
    let mut page = Page::NewAccountChange;
    let report = add_account_change(
        &some("j1"),
        &mut journals,
        &mut page,
        &some("t1"),
        change("c1", "a1", BalanceType::Debit, "100"),
    );
    assert_eq!(report, Report::Silent);
    assert_eq!(page, Page::SelectAccountChange);
    let changes = get_account_changes(&journals, &some("j1"), &some("t1")).unwrap();
    assert_eq!(changes.len(), 1);
    assert_eq!(changes.get(&"c1".to_string()).unwrap().amount, "100");
}

#[test]
fn add_account_change_without_a_transaction_reports_not_found() {
    let mut journals = registry(Vec::new());
    let mut page = Page::NewAccountChange;
    let report = add_account_change(
        &some("j1"),
        &mut journals,
        &mut page,
        &some("t9"),
        change("c1", "a1", BalanceType::Debit, "100"),
    );
    assert_eq!(report, Report::NotFound);
    assert_eq!(page, Page::SelectAccount);
    assert_eq!(get_account_changes(&journals, &some("j1"), &some("t1")).unwrap().len(), 0);
}

#[test]
fn new_account_change_with_answers_makes_the_change() {
    let mut journals = registry(Vec::new());
    let mut page = Page::NewAccountChange;
    let report = new_account_change(
        "usd".to_string(),
        &some("j1"),
        &mut journals,
        &mut page,
        &some("t1"),
        Ok(BalanceType::Debit),
        Ok("a1".to_string()),
        Ok(format!("{}", 100.0_f64)),
    );
    assert_eq!(report, Report::Silent);
    assert_eq!(page, Page::SelectAccountChange);
    let changes = get_account_changes(&journals, &some("j1"), &some("t1")).unwrap();
    assert_eq!(changes.len(), 1);
    let id = changes.key_at(0).clone();
    assert_eq!(id.len(), 36);
    let made = changes.get(&id).unwrap();
    assert_eq!(made.id, id);
    assert_eq!(made.account_id, "a1");
    assert_eq!(made.currency_id, "usd");
    assert_eq!(made.credit_or_debit, BalanceType::Debit);
    assert_eq!(made.amount, "100");
}

#[test]
fn new_account_change_reports_the_first_thing_that_goes_wrong() {
    let failed = |text: &str| Report::Failed(text.to_string());
    let cases = [
        (some("j1"), some("t1"), Err("side".to_string()), Err("account".to_string()), Err("amount".to_string()), failed("side")),
        (some("j9"), some("t1"), Err("side".to_string()), Ok("a1".to_string()), Ok("1".to_string()), failed("side")),
        (some("j9"), some("t1"), Ok(BalanceType::Debit), Err("account".to_string()), Ok("1".to_string()), Report::NotFound),
        (None, some("t1"), Ok(BalanceType::Debit), Ok("a1".to_string()), Ok("1".to_string()), Report::NotFound),
        (some("j1"), some("t1"), Ok(BalanceType::Debit), Err("account".to_string()), Err("amount".to_string()), failed("account")),
        (some("j1"), some("t9"), Ok(BalanceType::Debit), Ok("a1".to_string()), Err("amount".to_string()), failed("amount")),
        (some("j1"), some("t9"), Ok(BalanceType::Debit), Ok("a1".to_string()), Ok("1".to_string()), Report::NotFound),
        (some("j1"), None, Ok(BalanceType::Credit), Ok("a1".to_string()), Ok("1".to_string()), Report::NotFound),
    ];
    for (journal_id, transaction_id, side, account, amount, expected) in cases {
        let mut journals = registry(Vec::new());
        let mut page = Page::NewAccountChange;
        let report = new_account_change(
            "usd".to_string(),
            &journal_id,
            &mut journals,
            &mut page,
            &transaction_id,
            side,
            account,
            amount,
        );
        assert_eq!(report, expected);
        assert_eq!(page, Page::SelectAccount);
        assert_eq!(get_account_changes(&journals, &some("j1"), &some("t1")).unwrap().len(), 0);
    }
}

#[test]
fn account_changes_are_listed_by_label() {
    let journals = registry(vec![
        change("c1", "a1", BalanceType::Debit, "100"),
        change("c2", "a2", BalanceType::Credit, "100"),
        change("c3", "a9", BalanceType::Debit, "7"),
        change("c4", "a2", BalanceType::Debit, "30"),
    ]);
    let changes = get_account_changes(&journals, &some("j1"), &some("t1")).unwrap();
    let options = select_account_change_options(changes, &journals, &some("j1"));
    assert_eq!(
        labels(&options),
        vec![
            "C - Bank: 100",
            "D - Bank: 30",
            "D - Cash: 100",
            "D - [ERROR]: 7",
            "[New Account Change]",
            "[Back]"
        ]
    );
    assert_eq!(options[0].item, Selection::Entity("c2".to_string()));
    assert_eq!(options[1].item, Selection::Entity("c4".to_string()));
    assert_eq!(options[2].item, Selection::Entity("c1".to_string()));
    assert_eq!(options[3].item, Selection::Entity("c3".to_string()));
    assert_eq!(options[4].item, Selection::New);
    assert_eq!(options[5].item, Selection::Back);
}

#[test]
fn account_changes_with_the_same_label_keep_their_order() {
    let journals = registry(vec![
        change("c3", "a1", BalanceType::Debit, "5"),
        change("c1", "a1", BalanceType::Debit, "5"),
        change("c2", "a1", BalanceType::Credit, "5"),
    ]);
    let changes = get_account_changes(&journals, &some("j1"), &some("t1")).unwrap();
    let options = select_account_change_options(changes, &journals, &some("j1"));
    assert_eq!(
        labels(&options),
        vec!["C - Cash: 5", "D - Cash: 5", "D - Cash: 5", "[New Account Change]", "[Back]"]
    );
    assert_eq!(options[0].item, Selection::Entity("c2".to_string()));
    assert_eq!(options[1].item, Selection::Entity("c3".to_string()));
    assert_eq!(options[2].item, Selection::Entity("c1".to_string()));
}

#[test]
fn account_changes_of_an_empty_transaction_list_the_fixed_choices() {
    let journals = registry(Vec::new());
    let changes = get_account_changes(&journals, &some("j1"), &some("t1")).unwrap();
    let without_journal = select_account_change_options(changes, &journals, &None);
    assert_eq!(labels(&without_journal), vec!["[New Account Change]", "[Back]"]);
}

#[test]
fn select_account_change_follows_each_choice() {
    let kept = Some("old".to_string());
    let cases = [
        (Ok(Selection::Entity("c1".to_string())), some("c1"), Page::ViewAccountChange, Report::Silent),
        (Ok(Selection::Entity("c7".to_string())), kept.clone(), Page::SelectAccount, Report::NotFound),
        (Ok(Selection::New), kept.clone(), Page::NewAccountChange, Report::Silent),
        (Ok(Selection::Back), kept.clone(), Page::ViewTransaction, Report::Silent),
        (Err("closed".to_string()), kept.clone(), Page::SelectAccount, Report::Failed("closed".to_string())),
    ];
    for (answer, selected, next, expected) in cases {
        let mut journals = registry(vec![change("c1", "a1", BalanceType::Debit, "100")]);
        let mut account_change_id = Some("old".to_string());
        let mut page = Page::SelectAccountChange;
        let report = select_account_change(
            &mut account_change_id,
            &some("j1"),
            &mut journals,
            &mut page,
            &some("t1"),
            answer,
        );
        assert_eq!(report, expected);
        assert_eq!(account_change_id, selected);
        assert_eq!(page, next);
    }
}

#[test]
fn select_account_change_without_a_transaction_reports_not_found() {
    let mut journals = registry(vec![change("c1", "a1", BalanceType::Debit, "100")]);
    let mut account_change_id = None;
    let mut page = Page::SelectAccountChange;
    let report = select_account_change(
        &mut account_change_id,
        &some("j1"),
        &mut journals,
        &mut page,
        &some("t9"),
        Ok(Selection::Entity("c1".to_string())),
    );
    assert_eq!(report, Report::NotFound);
    assert_eq!(account_change_id, None);
    assert_eq!(page, Page::SelectAccount);
}

#[test]
fn view_account_change_follows_each_action() {
    let cases = [
        (some("c1"), Ok(EntityAction::Display), Page::ViewAccountChange, Report::Display),
        (some("c1"), Ok(EntityAction::Back), Page::SelectAccountChange, Report::Silent),
        (some("c1"), Ok(EntityAction::Delete), Page::DeleteAccountChange, Report::Silent),
        (some("c1"), Err("closed".to_string()), Page::SelectAccount, Report::Failed("closed".to_string())),
        (some("c9"), Ok(EntityAction::Back), Page::SelectAccount, Report::NotFound),
        (None, Ok(EntityAction::Back), Page::SelectAccount, Report::NotFound),
    ];
    for (selected, answer, next, expected) in cases {
        let mut journals = registry(vec![change("c1", "a1", BalanceType::Debit, "100")]);
        let mut account_change_id = selected.clone();
        let mut page = Page::ViewAccountChange;
        let report = view_account_change(
            &mut account_change_id,
            &some("j1"),
            &mut journals,
            &mut page,
            &some("t1"),
            answer,
        );
        assert_eq!(report, expected);
        assert_eq!(page, next);
        assert_eq!(account_change_id, selected);
        assert_eq!(get_account_changes(&journals, &some("j1"), &some("t1")).unwrap().len(), 1);
    }
}

#[test]
fn delete_account_change_follows_each_answer() {
    let cases = [
        (some("c1"), Ok(true), Page::SelectAccountChange, Report::Silent, 1),
        (some("c1"), Ok(false), Page::ViewAccountChange, Report::Silent, 2),
        (some("c1"), Err("closed".to_string()), Page::SelectAccount, Report::Failed("closed".to_string()), 2),
        (some("c9"), Ok(true), Page::SelectAccount, Report::NotFound, 2),
        (None, Ok(true), Page::SelectAccount, Report::NotFound, 2),
    ];
    for (selected, answer, next, expected, left) in cases {
        let mut journals = registry(vec![
            change("c1", "a1", BalanceType::Debit, "100"),
            change("c2", "a2", BalanceType::Credit, "100"),
        ]);
        let mut page = Page::DeleteAccountChange;
        let report = delete_account_change(
            &selected,
            &some("j1"),
            &mut journals,
            &mut page,
            &some("t1"),
            answer,
        );
        assert_eq!(report, expected);
        assert_eq!(page, next);
        let changes = get_account_changes(&journals, &some("j1"), &some("t1")).unwrap();
        assert_eq!(changes.len(), left);
        assert!(changes.contains_key(&"c2".to_string()));
        assert_eq!(changes.contains_key(&"c1".to_string()), left == 2);
    }
}
