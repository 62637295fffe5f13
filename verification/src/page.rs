//! The screens of the tool.

use vstd::prelude::*;

verus! {

/// The screen that runs next: one for each entity kind and each of the four
/// actions on it. A page carries nothing else; what a screen works on is
/// read from the current selection.
#[derive(Debug, Clone, Copy, PartialEq, Eq, Structural)]
pub enum Page {
    SelectJournal,
    NewJournal,
    ViewJournal,
    DeleteJournal,
    SelectAccount,
    NewAccount,
    ViewAccount,
    DeleteAccount,
    SelectTransaction,
    NewTransaction,
    ViewTransaction,
    DeleteTransaction,
    SelectAccountChange,
    NewAccountChange,
    ViewAccountChange,
    DeleteAccountChange,
}

} // verus!
