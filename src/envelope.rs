//! The wire records exchanged over the bus.
use vstd::prelude::*;

verus! {

/// A request as a listener receives it, decoded from an inbound message.
pub struct IncomingRequest<Pattern, Data> {
    pub pattern: Pattern,
    pub id: String,
    pub data: Data,
}

/// A request as the client sends it; `id` is freshly minted for it.
pub struct Request<Pattern, Data> {
    pub pattern: Pattern,
    pub id: String,
    pub data: Data,
}

/// The single reply to a request. `disposed` tells the caller that the
/// responder has released what the exchange held.
pub struct Response<Pattern, Data> {
    pub pattern: Pattern,
    pub id: String,
    pub data: Data,
    pub disposed: bool,
}

impl<Pattern, Data> Response<Pattern, Data> {
    /// Whether this reply carries the correlation identifier `id`.
    pub fn answers(&self, id: &String) -> (r: bool)
        ensures
            r == (self.id@ == id@),
    {
        self.id == *id
    }
}

} // verus!
