//! Currencies in which amounts are stated.

use crate::ident::{fresh_id, is_id_text};
use vstd::prelude::*;

verus! {

/// A currency as a value.
pub struct CurrencyView {
    pub id: Seq<char>,
    pub name: Seq<char>,
    pub symbol: Seq<char>,
}

/// A currency: a name and the symbol written with amounts.
#[derive(Debug, Clone)]
pub struct Currency {
    pub id: String,
    pub name: String,
    pub symbol: String,
}

impl View for Currency {
    type V = CurrencyView;

    open spec fn view(&self) -> CurrencyView {
        CurrencyView { id: self.id@, name: self.name@, symbol: self.symbol@ }
    }
}

impl Currency {
    /// A currency under the identifier `id`.
    pub fn with_id(id: String, name: String, symbol: String) -> (currency: Currency)
        ensures
            currency@ == (CurrencyView { id: id@, name: name@, symbol: symbol@ }),
    {
        Currency { id, name, symbol }
    }

    /// A currency under a new random identifier.
    pub fn new(name: String, symbol: String) -> (currency: Currency)
        ensures
            is_id_text(currency@.id),
            currency@ == (CurrencyView { id: currency@.id, name: name@, symbol: symbol@ }),
    {
        Currency::with_id(fresh_id(), name, symbol)
    }
}

} // verus!
