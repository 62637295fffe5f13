//! A double-entry style ledger: journals hold accounts and transactions,
//! transactions hold account changes, and a page value says which screen of
//! the terminal tool runs next.
//!
//! The crate holds the data model, the lookups that resolve a selection to an
//! entity, and one handler per screen. A handler never prompts: it is given
//! what the prompt returned and decides what changes and which page follows.

pub mod account;
pub mod account_change;
pub mod account_change_controller;
pub mod account_controller;
pub mod currency;
pub mod data;
pub mod id_map;
pub mod ident;
pub mod journal;
pub mod journal_controller;
pub mod listing;
pub mod lookup_selection;
pub mod page;
pub mod session;
pub mod text;
pub mod transaction;
pub mod transaction_controller;
pub mod unwrapper;
pub mod utility;
