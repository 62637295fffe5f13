//! Choices whose titles are borrowed.

use vstd::prelude::*;

verus! {

/// A choice as it is offered: the title that is shown, borrowed from its
/// owner, and what the choice stands for.
pub struct LookupEntry<'a, T> {
    pub title: &'a str,
    pub selection: T,
}

impl<T> LookupEntry<'_, T> {
    /// The choice `selection` under `title`.
    pub fn from(title: &'_ str, selection: T) -> (entry: LookupEntry<'_, T>)
        ensures
            entry.title@ == title@,
            entry.selection == selection,
    {
        LookupEntry { title, selection }
    }
}

/// The titles to show for `selections`, in their order.
pub fn titles<'a, T>(selections: &Vec<LookupEntry<'a, T>>) -> (shown: Vec<&'a str>)
    ensures
        shown@.len() == selections@.len(),
        forall|i: int| 0 <= i < selections@.len() ==> shown@[i]@ == #[trigger] selections@[i].title@,
{
    let mut shown: Vec<&'a str> = Vec::new();
    let mut i: usize = 0;
    while i < selections.len()
        invariant
            i <= selections@.len(),
            shown@.len() == i,
            forall|j: int| 0 <= j < i ==> shown@[j]@ == #[trigger] selections@[j].title@,
        decreases selections@.len() - i,
    {
        shown.push(selections[i].title);
        i += 1;
    }
    shown
}

/// What a prompt over `selections` stands for once it has returned: the
/// selection at the place that was picked, or the prompt's failure.
pub fn lookup_selection<'a, T>(
    selections: &'a Vec<LookupEntry<'a, T>>,
    picked: Result<usize, String>,
) -> (chosen: Result<&'a T, String>)
    requires
        picked matches Ok(i) ==> i < selections@.len(),
    ensures
        match picked {
            Ok(i) => chosen matches Ok(selection) && *selection == selections@[i as int].selection,
            Err(error) => chosen == Err::<&T, String>(error),
        },
{
    match picked {
        Ok(i) => Ok(&selections[i].selection),
        Err(error) => Err(error),
    }
}

} // verus!
