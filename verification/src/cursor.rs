//! The per-shard iterator cursor and the values a fetch call moves around.

use vstd::prelude::*;

verus! {

/// The payloads of a batch of records, in batch order.
pub open spec fn payloads_of(rs: Seq<Record>) -> Seq<Seq<u8>> {
    rs.map(|i: int, r: Record| r.payload())
}

/// One record read from a shard: an opaque payload blob. Its only identity is
/// its position in the shard's append order.
pub struct Record {
    pub data: Vec<u8>,
}

impl Record {
    /// The payload as a mathematical byte sequence.
    pub open spec fn payload(self) -> Seq<u8> {
        self.data@
    }

    pub fn new(data: Vec<u8>) -> (r: Record)
        ensures
            r.data@ == data@,
    {
        Record { data }
    }
}

/// What one fetch call returns: zero or more records in the shard's append
/// order, and the successor token, absent when the shard has been read to its
/// end.
pub struct FetchOutcome {
    pub records: Vec<Record>,
    pub next_token: Option<String>,
}

impl FetchOutcome {
    /// The payloads of the returned records, in the order they arrived.
    pub open spec fn payloads(self) -> Seq<Seq<u8>> {
        payloads_of(self.records@)
    }
}

/// Position marker for one shard. `Some` means ready to fetch; `None` means
/// exhausted: no further fetch is ever attempted for this shard.
pub struct ShardCursor {
    pub token: Option<String>,
}

impl ShardCursor {
    /// A cursor is active while it still holds a token to fetch with.
    pub open spec fn active(self) -> bool {
        self.token is Some
    }

    pub fn new(token: Option<String>) -> (r: ShardCursor)
        ensures
            r.token == token,
    {
        ShardCursor { token }
    }

    /// Whether a fetch call may be issued for this shard.
    pub fn is_active(&self) -> (r: bool)
        ensures
            r == self.active(),
    {
        self.token.is_some()
    }

    /// Advance the cursor from a fetch response: the successor token replaces
    /// the one just consumed, and the batch's records are handed back in the
    /// order the service returned them. An absent successor token retires the
    /// shard permanently.
    pub fn absorb(&mut self, outcome: FetchOutcome) -> (out: Vec<Record>)
        requires
            old(self).active(),
        ensures
            final(self).token == outcome.next_token,
            out@ == outcome.records@,
    {
        self.token = outcome.next_token;
        outcome.records
    }
}

} // verus!
