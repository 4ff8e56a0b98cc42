//! The addressing used for actual delivery.

use vstd::prelude::*;

verus! {

/// The view of an optional address: the character sequence of the address
/// when one is present.
pub open spec fn address_view(a: Option<String>) -> Option<Seq<char>> {
    match a {
        Some(s) => Some(s@),
        None => None,
    }
}

/// The sender and recipient addresses a delivery is made with, distinct
/// from the human-visible header fields of the message. The addresses are
/// consumed exactly as given: no validation, deduplication or reordering
/// is performed here.
pub struct Envelope {
    from: Option<String>,
    to: Vec<String>,
}

impl Envelope {
    /// The sender address, as a mathematical value, if the envelope
    /// carries one.
    pub closed spec fn sender_view(&self) -> Option<Seq<char>> {
        address_view(self.from)
    }

    /// The recipient addresses, in envelope order, as mathematical values.
    pub closed spec fn recipients_view(&self) -> Seq<Seq<char>> {
        self.to.deep_view()
    }

    /// Builds an envelope from the given sender and recipients, verbatim.
    pub fn new(from: Option<String>, to: Vec<String>) -> (e: Envelope)
        ensures
            e.sender_view() == address_view(from),
            e.recipients_view() == to.deep_view(),
    {
        Envelope { from, to }
    }

    /// The sender address, or `None` when the envelope carries none.
    pub fn sender(&self) -> (r: &Option<String>)
        ensures
            address_view(*r) == self.sender_view(),
    {
        &self.from
    }

    /// The recipient addresses, in envelope order.
    pub fn recipients(&self) -> (r: &Vec<String>)
        ensures
            r.deep_view() == self.recipients_view(),
    {
        &self.to
    }
}

} // verus!
