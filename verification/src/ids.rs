//! Identifiers of actors and messages: 32 bytes each, compared byte by byte.
use vstd::prelude::*;

verus! {

/// True when both arrays hold the same bytes.
fn same_bytes(a: &[u8; 32], b: &[u8; 32]) -> (same: bool)
    ensures
        same == (a@ == b@),
{
    let mut i: usize = 0;
    while i < 32
        invariant
            i <= 32,
            forall|j: int| 0 <= j < i ==> a@[j] == b@[j],
        decreases 32 - i,
    {
        if a[i] != b[i] {
            return false;
        }
        i += 1;
    }
    assert(a@ =~= b@);
    true
}

/// Identity of an actor: a player, the game actor, or the session actor itself.
#[derive(Clone, Copy, Debug)]
pub struct ActorId {
    bytes: [u8; 32],
}

impl View for ActorId {
    type V = Seq<u8>;

    closed spec fn view(&self) -> Seq<u8> {
        self.bytes@
    }
}

impl ActorId {
    /// The identifier made of the given bytes.
    pub fn new(bytes: [u8; 32]) -> (id: ActorId)
        ensures
            id@ == bytes@,
    {
        ActorId { bytes }
    }

    /// The identifier whose bytes are all zero.
    pub fn zero() -> (id: ActorId)
        ensures
            id@ == zero_id(),
    {
        let id = ActorId { bytes: [0u8; 32] };
        assert(id@ =~= zero_id());
        id
    }

    /// The bytes of the identifier.
    pub fn into_bytes(self) -> (bytes: [u8; 32])
        ensures
            bytes@ == self@,
    {
        self.bytes
    }
}

impl PartialEq for ActorId {
    fn eq(&self, other: &ActorId) -> (same: bool) {
        same_bytes(&self.bytes, &other.bytes)
    }
}

impl Eq for ActorId {}

impl vstd::std_specs::cmp::PartialEqSpecImpl for ActorId {
    open spec fn obeys_eq_spec() -> bool {
        true
    }

    open spec fn eq_spec(&self, other: &ActorId) -> bool {
        self@ == other@
    }
}

/// Identity of a message.
#[derive(Clone, Copy, Debug)]
pub struct MessageId {
    bytes: [u8; 32],
}

impl View for MessageId {
    type V = Seq<u8>;

    closed spec fn view(&self) -> Seq<u8> {
        self.bytes@
    }
}

impl MessageId {
    /// The identifier made of the given bytes.
    pub fn new(bytes: [u8; 32]) -> (id: MessageId)
        ensures
            id@ == bytes@,
    {
        MessageId { bytes }
    }

    /// The identifier whose bytes are all zero.
    pub fn zero() -> (id: MessageId)
        ensures
            id@ == zero_id(),
    {
        let id = MessageId { bytes: [0u8; 32] };
        assert(id@ =~= zero_id());
        id
    }

    /// The bytes of the identifier.
    pub fn into_bytes(self) -> (bytes: [u8; 32])
        ensures
            bytes@ == self@,
    {
        self.bytes
    }
}

impl PartialEq for MessageId {
    fn eq(&self, other: &MessageId) -> (same: bool) {
        same_bytes(&self.bytes, &other.bytes)
    }
}

impl Eq for MessageId {}

impl vstd::std_specs::cmp::PartialEqSpecImpl for MessageId {
    open spec fn obeys_eq_spec() -> bool {
        true
    }

    open spec fn eq_spec(&self, other: &MessageId) -> bool {
        self@ == other@
    }
}

/// The bytes of the zero identifier.
pub open spec fn zero_id() -> Seq<u8> {
    Seq::new(32, |i: int| 0u8)
}

} // verus!
