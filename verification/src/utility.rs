//! What the screens share: the messages they report, the fallback page,
//! date checks, labelled choices and lookups by an optional identifier.

use crate::id_map::IdMap;
use crate::page::Page;
use crate::text::{decimal, unsigned_text};
use vstd::prelude::*;
use vstd::string::*;

verus! {

/// The text shown in place of a name that cannot be found.
pub fn error_token() -> (token: &'static str)
    ensures
        token@ == "[ERROR]"@,
{
    "[ERROR]"
}

/// What a screen asks the terminal to show when it is done.
#[derive(Debug, PartialEq, Eq)]
pub enum Report {
    /// Nothing.
    Silent,
    /// The words "Not Found": a selection did not lead to an entity.
    NotFound,
    /// The message of a prompt that could not get its input.
    Failed(String),
    /// The entity that the screen is about, in full.
    Display,
}

impl Report {
    /// The line to print for this report, if it has one.
    pub fn message(&self) -> (line: Option<String>)
        ensures
            match *self {
                Report::NotFound => line matches Some(text) && text@ == "Not Found"@,
                Report::Failed(error) => line matches Some(text) && text@ == error@,
                Report::Silent | Report::Display => line is None,
            },
    {
        match self {
            Report::NotFound => Some(String::from_str("Not Found")),
            Report::Failed(error) => Some(error.clone()),
            Report::Silent => None,
            Report::Display => None,
        }
    }
}

/// A prompt failed with `error`: the message is reported and the fallback
/// page, the selection of accounts, comes next.
pub fn on_error(page: &mut Page, error: String) -> (report: Report)
    ensures
        *final(page) == Page::SelectAccount,
        report == Report::Failed(error),
{
    *page = Page::SelectAccount;
    Report::Failed(error)
}

/// A selection led nowhere: "Not Found" is reported and the fallback page,
/// the selection of accounts, comes next.
pub fn on_not_found(page: &mut Page) -> (report: Report)
    ensures
        *final(page) == Page::SelectAccount,
        report == Report::NotFound,
{
    *page = Page::SelectAccount;
    Report::NotFound
}

/// Whether `month` numbers a month of the year.
pub fn is_valid_month(month: u32) -> (valid: bool)
    ensures
        valid == (1 <= month <= 12),
{
    month > 0 && month <= 12
}

/// Whether `year` has a 29th of February in the proleptic Gregorian calendar.
pub open spec fn is_leap_year(year: int) -> bool {
    year % 4 == 0 && (year % 100 != 0 || year % 400 == 0)
}

/// The number of days of `month` in `year`.
pub open spec fn days_in_month(year: int, month: int) -> int {
    if month == 2 {
        if is_leap_year(year) {
            29
        } else {
            28
        }
    } else if month == 4 || month == 6 || month == 9 || month == 11 {
        30
    } else {
        31
    }
}

/// Whether the calendar has the day `day` of `month` in `year`, for the years
/// that a date can hold.
pub open spec fn is_calendar_day(year: int, month: int, day: int) -> bool {
    &&& -262143 <= year <= 262142
    &&& 1 <= month <= 12
    &&& 1 <= day <= days_in_month(year, month)
}

/// Whether `year`, `month` and `day` name a day of the calendar, as
/// `chrono::NaiveDate::from_ymd_opt` decides it. Trusted: that function gives
/// a date exactly when the month is 1 to 12, the day exists in that month of
/// that year of the proleptic Gregorian calendar, and the year lies within
/// the years a `NaiveDate` holds, -262143 to 262142.
#[verifier::external_body]
pub fn is_valid_day(year: i32, month: u32, day: u32) -> (valid: bool)
    ensures
        valid == is_calendar_day(year as int, month as int, day as int),
{
    chrono::NaiveDate::from_ymd_opt(year, month, day).is_some()
}

/// The name proposed for a new entity: the kind's name and the number of
/// entities that are there already.
pub fn numbered(kind: &str, count: usize) -> (name: String)
    ensures
        name@ == kind@ + " "@ + decimal(count as nat),
{
    let mut name: String = String::from_str(kind);
    name.append(" ");
    let number: String = unsigned_text(count as u64);
    name.append(number.as_str());
    name
}

/// The question asked before the entity called `name` is deleted.
pub fn deletion_prompt(name: &str) -> (question: String)
    ensures
        question@ == "Are you sure you want to delete \""@ + name@ + "\"?"@,
{
    let mut question: String = String::from_str("Are you sure you want to delete \"");
    question.append(name);
    question.append("\"?");
    question
}

/// A choice as it is offered: the label that is shown and what it stands for.
#[derive(Debug)]
pub struct LabeledItem<T> {
    pub label: String,
    pub item: T,
}

impl<T> LabeledItem<T> {
    /// The choice `item` under `label`.
    pub fn from(label: String, item: T) -> (choice: LabeledItem<T>)
        ensures
            choice.label == label,
            choice.item == item,
    {
        LabeledItem { label, item }
    }
}

/// What can be done with an entity on view that owns nothing.
#[derive(Debug, Clone, Copy, PartialEq, Eq, Structural)]
pub enum EntityAction {
    Back,
    Display,
    Delete,
}

/// The list that the view of an account or of an account change offers:
/// "[Back]", "[Display]" and "[Delete]".
pub fn entity_options() -> (options: Vec<LabeledItem<EntityAction>>)
    ensures
        options@.len() == 3,
        options@[0].label@ == "[Back]"@ && options@[0].item == EntityAction::Back,
        options@[1].label@ == "[Display]"@ && options@[1].item == EntityAction::Display,
        options@[2].label@ == "[Delete]"@ && options@[2].item == EntityAction::Delete,
{
    let mut options: Vec<LabeledItem<EntityAction>> = Vec::new();
    options.push(LabeledItem::from(String::from_str("[Back]"), EntityAction::Back));
    options.push(LabeledItem::from(String::from_str("[Display]"), EntityAction::Display));
    options.push(LabeledItem::from(String::from_str("[Delete]"), EntityAction::Delete));
    options
}

/// The labels to show for `items`, in their order.
pub fn labels<T>(items: &Vec<LabeledItem<T>>) -> (shown: Vec<String>)
    ensures
        shown@.len() == items@.len(),
        forall|i: int| 0 <= i < items@.len() ==> shown@[i]@ == #[trigger] items@[i].label@,
{
    let mut shown: Vec<String> = Vec::new();
    let mut i: usize = 0;
    while i < items.len()
        invariant
            i <= items@.len(),
            shown@.len() == i,
            forall|j: int| 0 <= j < i ==> shown@[j]@ == #[trigger] items@[j].label@,
        decreases items@.len() - i,
    {
        shown.push(items[i].label.clone());
        i += 1;
    }
    shown
}

/// What a prompt over `items` stands for once it has returned: the item at
/// the place that was picked, or the prompt's failure.
pub fn select_with_labels<T>(
    items: &Vec<LabeledItem<T>>,
    picked: Result<usize, String>,
) -> (chosen: Result<&T, String>)
    requires
        picked matches Ok(i) ==> i < items@.len(),
    ensures
        match picked {
            Ok(i) => chosen matches Ok(item) && *item == items@[i as int].item,
            Err(error) => chosen == Err::<&T, String>(error),
        },
{
    match picked {
        Ok(i) => Ok(&items[i].item),
        Err(error) => Err(error),
    }
}

/// One round of asking for a number until it passes `validate`: `parsed` is
/// what the prompt for a number returned. A failure ends the asking, and so
/// does a number that passes; for any other number the answer is `None`, and
/// the prompt is to be made again.
pub fn input_until_number_with_validation<F: Copy, V: Fn(F) -> bool>(
    parsed: Result<F, String>,
    validate: &V,
) -> (outcome: Option<Result<F, String>>)
    requires
        parsed matches Ok(number) ==> call_requires(validate, (number,)),
    ensures
        match parsed {
            Ok(number) => match outcome {
                Some(accepted) => accepted == Ok::<F, String>(number) && call_ensures(
                    validate,
                    (number,),
                    true,
                ),
                None => call_ensures(validate, (number,), false),
            },
            Err(error) => outcome == Some(Err::<F, String>(error)),
        },
{
    match parsed {
        Ok(number) => {
            if validate(number) {
                Some(Ok(number))
            } else {
                None
            }
        },
        Err(error) => Some(Err(error)),
    }
}

/// What a mapping holds under an optional key: nothing without a key, and
/// nothing under a key that is not bound.
pub open spec fn lookup<K, T>(bindings: Map<K, T>, key: Option<K>) -> Option<T> {
    match key {
        Some(k) => if bindings.contains_key(k) {
            Some(bindings[k])
        } else {
            None
        },
        None => None,
    }
}

/// An optional key as the value it stands for.
pub open spec fn key_view<K: View>(key: Option<K>) -> Option<K::V> {
    match key {
        Some(k) => Some(k@),
        None => None,
    }
}

/// Lookups that take their key as an option, so that a selection that may
/// be missing can be resolved in one step.
pub trait OptionalKey<K: View, V: View>: Sized {
    /// The mapping that is looked up in.
    spec fn bindings(&self) -> Map<K::V, V::V>;

    /// The entity under `key`, if there is a key and it is bound.
    fn get_optional(&self, key: Option<K>) -> (found: Option<&V>)
        ensures
            match found {
                Some(value) => lookup(self.bindings(), key_view(key)) == Some(value@),
                None => lookup(self.bindings(), key_view(key)) is None,
            },
    ;

    /// The entity under `key`, if there is a key and it is bound, for
    /// changing in place.
    fn get_optional_mut(&mut self, key: Option<K>) -> (found: Option<&mut V>)
        ensures
            match found {
                Some(value) => lookup(old(self).bindings(), key_view(key)) == Some(value@)
                    && final(self).bindings() == old(self).bindings().insert(
                    key->0@,
                    final(value)@,
                ),
                None => lookup(old(self).bindings(), key_view(key)) is None && *final(self) == *old(
                    self,
                ),
            },
    ;
}

impl<V: View> OptionalKey<String, V> for IdMap<V> {
    open spec fn bindings(&self) -> Map<Seq<char>, V::V> {
        self@
    }

    fn get_optional(&self, key: Option<String>) -> (found: Option<&V>) {
        match key {
            Some(k) => self.get(&k),
            None => None,
        }
    }

    fn get_optional_mut(&mut self, key: Option<String>) -> (found: Option<&mut V>) {
        match key {
            Some(k) => self.get_mut(&k),
            None => None,
        }
    }
}

} // verus!
