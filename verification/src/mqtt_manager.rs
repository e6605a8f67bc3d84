use vstd::prelude::*;

verus! {

/// The identifier of a particular connection. It changes when a reconnection is completed
/// (for example when the server is unresponsive).
#[derive(Debug, PartialEq, Eq, Clone, Copy, Structural)]
pub struct ConnectionId(u32);

impl ConnectionId {
    /// The number that identifies the connection
    pub closed spec fn id(&self) -> u32 {
        self.0
    }

    /// The connection identified by a number
    pub fn new(id: u32) -> (r: ConnectionId)
        ensures
            r.id() == id,
    {
        ConnectionId(id)
    }
}

/// Two connection identifiers are the same exactly when their numbers are, so identifiers
/// made from the same number are equal, and from different numbers, different.
pub proof fn lemma_connection_id_equal(a: ConnectionId, b: ConnectionId)
    ensures
        (a == b) <==> (a.id() == b.id()),
{
}

} // verus!
