//! The executable store.

use vstd::prelude::*;

use crate::model::{fetched, initial, submitted};

verus! {

/// One text value, empty until the first submission and replaced whole by
/// each later one.
pub struct AddressStore {
    value: String,
}

impl View for AddressStore {
    type V = Seq<char>;

    /// The text that the store holds.
    closed spec fn view(&self) -> Seq<char> {
        self.value@
    }
}

impl AddressStore {
    /// A store that holds the empty text.
    pub fn new() -> (store: Self)
        ensures
            store@ == initial(),
    {
        AddressStore { value: String::new() }
    }

    /// Returns a copy of the text that the store holds. The store itself is
    /// left as it was.
    pub fn fetch_server_ip(&self) -> (ip: String)
        ensures
            ip@ == fetched(self@),
    {
        self.value.clone()
    }

    /// Replaces the text that the store holds by `new_ip`, whatever it is:
    /// every text is accepted, the empty one too.
    pub fn submit_ip(&mut self, new_ip: String)
        ensures
            final(self)@ == submitted(old(self)@, new_ip@),
    {
        self.value = new_ip;
    }
}

} // verus!
