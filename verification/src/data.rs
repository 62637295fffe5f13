//! The whole state that is kept between sessions.

use crate::currency::{Currency, CurrencyView};
use crate::id_map::IdMap;
use crate::ident::is_id_text;
use crate::journal::Journal;
use vstd::prelude::*;
use vstd::string::*;

verus! {

/// The ledger and the currencies its amounts are stated in.
#[derive(Debug)]
pub struct Data {
    pub journals: IdMap<Journal>,
    pub currencies: IdMap<Currency>,
}

impl Data {
    /// The state that a session starts from. `stored` is what was kept from
    /// the session before, if anything was: it is taken as it is. Without it
    /// the ledger is empty and has one currency, "Dollars" with the symbol
    /// "$", under a new random identifier.
    pub fn load(stored: Option<Data>) -> (data: Data)
        ensures
            match stored {
                Some(kept) => data == kept,
                None => {
                    &&& data.journals@ == Map::<Seq<char>, crate::journal::JournalView>::empty()
                    &&& exists|id: Seq<char>|
                        #[trigger] is_id_text(id) && data.currencies@ == Map::<
                            Seq<char>,
                            CurrencyView,
                        >::empty().insert(
                            id,
                            CurrencyView { id, name: "Dollars"@, symbol: "$"@ },
                        )
                },
            },
    {
        match stored {
            Some(kept) => kept,
            None => {
                let mut data = Data { journals: IdMap::new(), currencies: IdMap::new() };
                let dollars = Currency::new(String::from_str("Dollars"), String::from_str("$"));
                proof {
                    assert(is_id_text(dollars@.id));
                }
                data.currencies.insert(dollars.id.clone(), dollars);
                data
            },
        }
    }
}

} // verus!
