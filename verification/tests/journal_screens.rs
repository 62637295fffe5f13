use ledger::id_map::IdMap;
use ledger::journal::Journal;
use ledger::journal_controller::{
    add_journal, delete_journal, new_journal, select_journal, select_journal_options,
    view_journal, view_journal_options, JournalAction,
};
use ledger::listing::Selection;
use ledger::page::Page;
use ledger::unwrapper::get_journal_mut;
use ledger::utility::{labels, Report};

fn registry(names: &[(&str, &str)]) -> IdMap<Journal> {
    let mut journals: IdMap<Journal> = IdMap::new();
    for (id, name) in names {
        journals.insert(id.to_string(), Journal::with_id(id.to_string(), name.to_string()));
    }
    journals
}

#[test]
fn add_journal_puts_it_under_its_identifier() {
    let mut journals = registry(&[("j1", "Books")]);
    let mut page = Page::NewJournal;
    add_journal(&mut journals, &mut page, Journal::with_id("j2".to_string(), "Home".to_string()));
    assert_eq!(page, Page::SelectJournal);
    assert_eq!(journals.len(), 2);
    assert_eq!(journals.get(&"j2".to_string()).unwrap().name, "Home");
    assert_eq!(journals.get(&"j1".to_string()).unwrap().name, "Books");
}

#[test]
fn new_journal_with_a_name_makes_an_empty_journal() {
    let mut journals = registry(&[("j1", "Books")]);
    let mut page = Page::NewJournal;
    let report = new_journal(&mut journals, &mut page, Ok("Home".to_string()));
    assert_eq!(report, Report::Silent);
    assert_eq!(page, Page::SelectJournal);
    assert_eq!(journals.len(), 2);
    let id = journals.key_at(1).clone();
    assert_eq!(id.len(), 36);
    let made = journals.get(&id).unwrap();
    assert_eq!(made.id, id);
    assert_eq!(made.name, "Home");
    assert_eq!(made.accounts.len(), 0);
    assert_eq!(made.transactions.len(), 0);
}

#[test]
fn new_journal_after_a_failed_prompt_makes_nothing() {
    let mut journals = registry(&[("j1", "Books")]);
    let mut page = Page::NewJournal;
    let report = new_journal(&mut journals, &mut page, Err("closed".to_string()));
    assert_eq!(report, Report::Failed("closed".to_string()));
    assert_eq!(page, Page::SelectAccount);
    assert_eq!(journals.len(), 1);
}

#[test]
fn journals_are_listed_by_name_whatever_the_order_they_came_in() {
    let journals = registry(&[("1", "Zeta"), ("2", "Mid"), ("3", "Alpha")]);
    let options = select_journal_options(&journals);
    assert_eq!(
        labels(&options),
        vec!["Alpha", "Mid", "Zeta", "[New Journal]", "[Quit]"]
    );
    assert_eq!(options[0].item, Selection::Entity("3".to_string()));
    assert_eq!(options[1].item, Selection::Entity("2".to_string()));
    assert_eq!(options[2].item, Selection::Entity("1".to_string()));
    assert_eq!(options[3].item, Selection::New);
    assert_eq!(options[4].item, Selection::Back);
    let other_way = registry(&[("3", "Alpha"), ("1", "Zeta"), ("2", "Mid")]);
    assert_eq!(labels(&select_journal_options(&other_way)), labels(&options));
}

#[test]
fn an_empty_registry_lists_the_fixed_choices() {
    let journals = registry(&[]);
    assert_eq!(labels(&select_journal_options(&journals)), vec!["[New Journal]", "[Quit]"]);
}

#[test]
fn select_journal_takes_a_journal_that_is_there() {
    let journals = registry(&[("j1", "Books"), ("j2", "Home")]);
    let mut journal_id = Some("j1".to_string());
    let mut page = Page::SelectJournal;
    let mut quit = false;
    let report = select_journal(
        &journals,
        &mut journal_id,
        &mut page,
        &mut quit,
        Ok(Selection::Entity("j2".to_string())),
    );
    assert_eq!(report, Report::Silent);
    assert_eq!(journal_id, Some("j2".to_string()));
    assert_eq!(page, Page::ViewJournal);
    assert!(!quit);
}

#[test]
fn select_journal_reports_a_journal_that_is_not_there() {
    let journals = registry(&[("j1", "Books")]);
    let mut journal_id = Some("j1".to_string());
    let mut page = Page::SelectJournal;
    let mut quit = false;
    let report = select_journal(
        &journals,
        &mut journal_id,
        &mut page,
        &mut quit,
        Ok(Selection::Entity("gone".to_string())),
    );
    assert_eq!(report, Report::NotFound);
    assert_eq!(journal_id, None);
    assert_eq!(page, Page::SelectAccount);
    assert!(!quit);
}

#[test]
fn select_journal_leads_to_a_new_journal() {
    let journals = registry(&[("j1", "Books")]);
    let mut journal_id = Some("j1".to_string());
    let mut page = Page::SelectJournal;
    let mut quit = false;
    let report = select_journal(&journals, &mut journal_id, &mut page, &mut quit, Ok(Selection::New));
    assert_eq!(report, Report::Silent);
    assert_eq!(journal_id, None);
    assert_eq!(page, Page::NewJournal);
    assert!(!quit);
}

#[test]
fn select_journal_raises_the_signal_to_leave() {
    let journals = registry(&[("j1", "Books")]);
    let mut journal_id = Some("j1".to_string());
    let mut page = Page::SelectJournal;
    let mut quit = false;
    let report = select_journal(&journals, &mut journal_id, &mut page, &mut quit, Ok(Selection::Back));
    assert_eq!(report, Report::Silent);
    assert_eq!(journal_id, None);
    assert_eq!(page, Page::SelectJournal);
    assert!(quit);
}

#[test]
fn select_journal_falls_back_after_a_failed_prompt() {
    let journals = registry(&[("j1", "Books")]);
    let mut journal_id = Some("j1".to_string());
    let mut page = Page::SelectJournal;
    let mut quit = false;
    let report =
        select_journal(&journals, &mut journal_id, &mut page, &mut quit, Err("closed".to_string()));
    assert_eq!(report, Report::Failed("closed".to_string()));
    assert_eq!(journal_id, None);
    assert_eq!(page, Page::SelectAccount);
    assert!(!quit);
}

#[test]
fn view_journal_offers_its_five_actions() {
    let options = view_journal_options();
    assert_eq!(
        labels(&options),
        vec!["[Back]", "[Accounts]", "[Display]", "[Transactions]", "[Delete]"]
    );
    assert_eq!(options[0].item, JournalAction::Back);
    assert_eq!(options[1].item, JournalAction::Accounts);
    assert_eq!(options[2].item, JournalAction::Display);
    assert_eq!(options[3].item, JournalAction::Transactions);
    assert_eq!(options[4].item, JournalAction::Delete);
}

#[test]
fn view_journal_follows_each_action() {
    let cases = [
        (JournalAction::Display, Page::ViewJournal, Report::Display),
        (JournalAction::Delete, Page::DeleteJournal, Report::Silent),
        (JournalAction::Back, Page::SelectJournal, Report::Silent),
        (JournalAction::Accounts, Page::SelectAccount, Report::Silent),
        (JournalAction::Transactions, Page::SelectTransaction, Report::Silent),
    ];
    for (action, next, expected) in cases {
        let mut journals = registry(&[("j1", "Books")]);
        let mut page = Page::ViewJournal;
        let report = view_journal(
            get_journal_mut(&mut journals, &Some("j1".to_string())),
            &mut page,
            Ok(action),
        );
        assert_eq!(report, expected);
        assert_eq!(page, next);
        assert_eq!(journals.get(&"j1".to_string()).unwrap().name, "Books");
    }
}

#[test]
fn view_journal_reports_a_missing_journal() {
    let mut journals = registry(&[("j1", "Books")]);
    let mut page = Page::ViewJournal;
    let report = view_journal(
        get_journal_mut(&mut journals, &Some("j9".to_string())),
        &mut page,
        Ok(JournalAction::Back),
    );
    assert_eq!(report, Report::NotFound);
    assert_eq!(page, Page::SelectAccount);
    let mut page = Page::ViewJournal;
    let report = view_journal(None, &mut page, Err("closed".to_string()));
    assert_eq!(report, Report::NotFound);
    assert_eq!(page, Page::SelectAccount);
}

#[test]
fn view_journal_falls_back_after_a_failed_prompt() {
    let mut journals = registry(&[("j1", "Books")]);
    let mut page = Page::ViewJournal;
    let report = view_journal(
        get_journal_mut(&mut journals, &Some("j1".to_string())),
        &mut page,
        Err("closed".to_string()),
    );
    assert_eq!(report, Report::Failed("closed".to_string()));
    assert_eq!(page, Page::SelectAccount);
}

#[test]
fn delete_journal_confirmed_removes_it() {
    let mut journals = registry(&[("j1", "Books"), ("j2", "Home")]);
    let mut page = Page::DeleteJournal;
    let report = delete_journal(&mut journals, &Some("j1".to_string()), &mut page, Ok(true));
    assert_eq!(report, Report::Silent);
    assert_eq!(page, Page::SelectJournal);
    assert_eq!(journals.len(), 1);
    assert!(journals.get(&"j1".to_string()).is_none());
    assert_eq!(journals.get(&"j2".to_string()).unwrap().name, "Home");
}

#[test]
fn delete_journal_declined_keeps_it() {
    let mut journals = registry(&[("j1", "Books")]);
    let mut page = Page::DeleteJournal;
    let report = delete_journal(&mut journals, &Some("j1".to_string()), &mut page, Ok(false));
    assert_eq!(report, Report::Silent);
    assert_eq!(page, Page::ViewJournal);
    assert_eq!(journals.get(&"j1".to_string()).unwrap().name, "Books");
}

#[test]
fn delete_journal_reports_a_selection_that_leads_nowhere() {
    let mut journals = registry(&[("j1", "Books")]);
    let mut page = Page::DeleteJournal;
    assert_eq!(delete_journal(&mut journals, &None, &mut page, Ok(true)), Report::NotFound);
    assert_eq!(page, Page::SelectAccount);
    let mut page = Page::DeleteJournal;
    let report = delete_journal(&mut journals, &Some("j9".to_string()), &mut page, Ok(true));
    assert_eq!(report, Report::NotFound);
    assert_eq!(page, Page::SelectAccount);
    assert_eq!(journals.len(), 1);
}

#[test]
fn delete_journal_falls_back_after_a_failed_prompt() {
    let mut journals = registry(&[("j1", "Books")]);
    let mut page = Page::DeleteJournal;
    let report =
        delete_journal(&mut journals, &Some("j1".to_string()), &mut page, Err("closed".to_string()));
    assert_eq!(report, Report::Failed("closed".to_string()));
    assert_eq!(page, Page::SelectAccount);
    assert_eq!(journals.len(), 1);
}
