//! The four screens of journals.

use crate::id_map::IdMap;
use crate::ident::is_id_text;
use crate::journal::{Journal, JournalView};
use crate::listing::{
    is_menu, lemma_as_map_labelled, menu, rows_of, texts, ties_in_order, Selection,
};
use crate::page::Page;
use crate::unwrapper::journal_of;
use crate::utility::{key_view, on_error, on_not_found, LabeledItem, Report};
use vstd::prelude::*;
use vstd::string::*;

verus! {

/// What can be done with the journal on view.
#[derive(Debug, Clone, Copy, PartialEq, Eq, Structural)]
pub enum JournalAction {
    Display,
    Delete,
    Back,
    Accounts,
    Transactions,
}

/// Puts `journal` into the registry under its own identifier, in place of
/// any journal that was there under it, and turns to the list of journals.
pub fn add_journal(journals: &mut IdMap<Journal>, page: &mut Page, journal: Journal)
    ensures
        final(journals)@ == old(journals)@.insert(journal@.id, journal@),
        *final(page) == Page::SelectJournal,
{
    journals.insert(journal.id.clone(), journal);
    *page = Page::SelectJournal;
}

/// The screen that makes a journal. `name` is what the prompt for the name
/// returned. A name makes an empty journal under a new random identifier;
/// the list of journals comes next.
pub fn new_journal(
    journals: &mut IdMap<Journal>,
    page: &mut Page,
    name: Result<String, String>,
) -> (report: Report)
    ensures
        match name {
            Ok(text) => {
                &&& exists|id: Seq<char>|
                    #[trigger] is_id_text(id) && final(journals)@ == old(journals)@.insert(
                        id,
                        JournalView {
                            id,
                            name: text@,
                            accounts: Map::empty(),
                            transactions: Map::empty(),
                        },
                    )
                &&& *final(page) == Page::SelectJournal
                &&& report == Report::Silent
            },
            Err(error) => {
                &&& *final(journals) == *old(journals)
                &&& *final(page) == Page::SelectAccount
                &&& report == Report::Failed(error)
            },
        },
{
    let name = match name {
        Err(error) => {
            return on_error(page, error);
        },
        Ok(name) => name,
    };
    let journal = Journal::new(name);
    proof {
        assert(is_id_text(journal@.id));
    }
    add_journal(journals, page, journal);
    Report::Silent
}

/// The name of a journal as a value.
pub open spec fn journal_label(journal: JournalView) -> Seq<char> {
    journal.name
}

/// The list that the selection of journals offers: every journal under its
/// name, by ascending name, then "[New Journal]" and "[Quit]".
pub fn select_journal_options(journals: &IdMap<Journal>) -> (options: Vec<LabeledItem<Selection>>)
    ensures
        is_menu(
            options@,
            journals@.map_values(|journal: JournalView| journal_label(journal)),
            "[New Journal]"@,
            "[Quit]"@,
        ),
        ties_in_order(rows_of(options@.take(options@.len() - 2)), journals.entries()),
{
    let mut labels: Vec<String> = Vec::new();
    let mut i: usize = 0;
    let n: usize = journals.len();
    while i < n
        invariant
            i <= n,
            n == journals.entries().len(),
            labels@.len() == i,
            forall|j: int| 0 <= j < i ==> #[trigger] labels@[j]@ == journals.entries()[j].1.name,
        decreases n - i,
    {
        labels.push(journals.value_at(i).name.clone());
        i += 1;
    }
    proof {
        use_type_invariant(journals);
        lemma_as_map_labelled(
            journals.entries(),
            texts(labels@),
            |journal: JournalView| journal_label(journal),
        );
    }
    menu(journals, &labels, "[New Journal]", "[Quit]")
}

/// The screen that selects a journal. `answer` is the choice that was made
/// from the list, or the prompt's failure. The selection is emptied first.
/// A journal that is there becomes the selection and goes on view; making a
/// new one leads to its screen; going back raises the signal to leave.
pub fn select_journal(
    journals: &IdMap<Journal>,
    journal_id: &mut Option<String>,
    page: &mut Page,
    terminate_signal: &mut bool,
    answer: Result<Selection, String>,
) -> (report: Report)
    ensures
        match answer {
            Ok(Selection::Entity(id)) => if journals@.contains_key(id@) {
                &&& key_view(*final(journal_id)) == Some(journals@[id@].id)
                &&& *final(page) == Page::ViewJournal
                &&& *final(terminate_signal) == *old(terminate_signal)
                &&& report == Report::Silent
            } else {
                &&& *final(journal_id) is None
                &&& *final(page) == Page::SelectAccount
                &&& *final(terminate_signal) == *old(terminate_signal)
                &&& report == Report::NotFound
            },
            Ok(Selection::New) => {
                &&& *final(journal_id) is None
                &&& *final(page) == Page::NewJournal
                &&& *final(terminate_signal) == *old(terminate_signal)
                &&& report == Report::Silent
            },
            Ok(Selection::Back) => {
                &&& *final(journal_id) is None
                &&& *final(page) == *old(page)
                &&& *final(terminate_signal)
                &&& report == Report::Silent
            },
            Err(error) => {
                &&& *final(journal_id) is None
                &&& *final(page) == Page::SelectAccount
                &&& *final(terminate_signal) == *old(terminate_signal)
                &&& report == Report::Failed(error)
            },
        },
{
    *journal_id = None;
    let selection = match answer {
        Ok(selection) => selection,
        Err(error) => {
            return on_error(page, error);
        },
    };
    match selection {
        Selection::Entity(id) => {
            match journals.get(&id) {
                None => {
                    return on_not_found(page);
                },
                Some(journal) => {
                    *journal_id = Some(journal.id.clone());
                    *page = Page::ViewJournal;
                },
            }
        },
        Selection::New => {
            *page = Page::NewJournal;
        },
        Selection::Back => {
            *terminate_signal = true;
        },
    }
    Report::Silent
}

/// The label of each action on a journal.
pub open spec fn journal_action_label(action: JournalAction) -> Seq<char> {
    match action {
        JournalAction::Back => "[Back]"@,
        JournalAction::Accounts => "[Accounts]"@,
        JournalAction::Display => "[Display]"@,
        JournalAction::Transactions => "[Transactions]"@,
        JournalAction::Delete => "[Delete]"@,
    }
}

/// The list that the view of a journal offers.
pub fn view_journal_options() -> (options: Vec<LabeledItem<JournalAction>>)
    ensures
        options@.len() == 5,
        options@[0].item == JournalAction::Back,
        options@[1].item == JournalAction::Accounts,
        options@[2].item == JournalAction::Display,
        options@[3].item == JournalAction::Transactions,
        options@[4].item == JournalAction::Delete,
        forall|i: int|
            0 <= i < 5 ==> (#[trigger] options@[i]).label@ == journal_action_label(options@[i].item),
{
    let mut options: Vec<LabeledItem<JournalAction>> = Vec::new();
    options.push(LabeledItem::from(String::from_str("[Back]"), JournalAction::Back));
    options.push(LabeledItem::from(String::from_str("[Accounts]"), JournalAction::Accounts));
    options.push(LabeledItem::from(String::from_str("[Display]"), JournalAction::Display));
    options.push(
        LabeledItem::from(String::from_str("[Transactions]"), JournalAction::Transactions),
    );
    options.push(LabeledItem::from(String::from_str("[Delete]"), JournalAction::Delete));
    options
}

/// The page that follows an action on the journal on view, which is shown
/// on `page`.
pub open spec fn after_journal_action(page: Page, action: JournalAction) -> Page {
    match action {
        JournalAction::Display => page,
        JournalAction::Delete => Page::DeleteJournal,
        JournalAction::Back => Page::SelectJournal,
        JournalAction::Accounts => Page::SelectAccount,
        JournalAction::Transactions => Page::SelectTransaction,
    }
}

/// The screen that views a journal. `journal` is what the selection resolved
/// to and `answer` the action that was chosen, or the prompt's failure. The
/// journal is left as it is.
pub fn view_journal(
    journal: Option<&mut Journal>,
    page: &mut Page,
    answer: Result<JournalAction, String>,
) -> (report: Report)
    ensures
        journal matches Some(viewed) ==> *final(viewed) == *viewed,
        match (journal, answer) {
            (None, _) => *final(page) == Page::SelectAccount && report == Report::NotFound,
            (Some(_), Err(error)) => *final(page) == Page::SelectAccount && report
                == Report::Failed(error),
            (Some(_), Ok(action)) => *final(page) == after_journal_action(*old(page), action)
                && report == if action == JournalAction::Display {
                Report::Display
            } else {
                Report::Silent
            },
        },
{
    if journal.is_none() {
        return on_not_found(page);
    }
    let selection = match answer {
        Ok(selection) => selection,
        Err(error) => {
            return on_error(page, error);
        },
    };
    match selection {
        JournalAction::Display => {
            return Report::Display;
        },
        JournalAction::Delete => {
            *page = Page::DeleteJournal;
        },
        JournalAction::Back => {
            *page = Page::SelectJournal;
        },
        JournalAction::Accounts => {
            *page = Page::SelectAccount;
        },
        JournalAction::Transactions => {
            *page = Page::SelectTransaction;
        },
    }
    Report::Silent
}

/// The screen that deletes a journal. `answer` is what the confirmation
/// returned. A journal that is confirmed goes, with all that it owns, and
/// the list of journals comes next; one that is not stays on view.
pub fn delete_journal(
    journals: &mut IdMap<Journal>,
    journal_id: &Option<String>,
    page: &mut Page,
    answer: Result<bool, String>,
) -> (report: Report)
    ensures
        match (journal_of(old(journals)@, key_view(*journal_id)), answer) {
            (None, _) => {
                &&& *final(journals) == *old(journals)
                &&& *final(page) == Page::SelectAccount
                &&& report == Report::NotFound
            },
            (Some(_), Err(error)) => {
                &&& *final(journals) == *old(journals)
                &&& *final(page) == Page::SelectAccount
                &&& report == Report::Failed(error)
            },
            (Some(_), Ok(false)) => {
                &&& *final(journals) == *old(journals)
                &&& *final(page) == Page::ViewJournal
                &&& report == Report::Silent
            },
            (Some(_), Ok(true)) => {
                &&& final(journals)@ == old(journals)@.remove(journal_id->0@)
                &&& *final(page) == Page::SelectJournal
                &&& report == Report::Silent
            },
        },
{
    let journal_id = match journal_id {
        None => {
            return on_not_found(page);
        },
        Some(id) => id,
    };
    if !journals.contains_key(journal_id) {
        return on_not_found(page);
    }
    let should_delete = match answer {
        Err(error) => {
            return on_error(page, error);
        },
        Ok(should_delete) => should_delete,
    };
    if should_delete {
        journals.remove(journal_id);
        *page = Page::SelectJournal;
    } else {
        *page = Page::ViewJournal;
    }
    Report::Silent
}

} // verus!
