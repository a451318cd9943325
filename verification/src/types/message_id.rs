//! Typed message identifiers, made from the raw bytes of the wire.

use super::error::Error;
use crate::proto;
use bee_message::MessageId;
use vstd::prelude::*;
use vstd::std_specs::convert::TryFromSpecImpl;

verus! {

/// The length, in bytes, of a valid message identifier.
pub const MESSAGE_ID_LENGTH: usize = 32;

/// Whether raw bytes make up a valid message identifier.
pub open spec fn is_message_id(bytes: Seq<u8>) -> bool {
    bytes.len() == MESSAGE_ID_LENGTH
}

/// The typed message identifier of `bee_message`, carried through as an opaque value.
#[verifier::external_type_specification]
#[verifier::external_body]
pub struct ExMessageId(bee_message::MessageId);

/// The bytes that a message identifier holds, the ones that its `as_ref` hands
/// out. Contracts speak of an identifier through them.
pub uninterp spec fn message_id_bytes(id: MessageId) -> Seq<u8>;

/// Calls `MessageId::new`, which keeps the array it is given: the new identifier
/// holds exactly those bytes. This is taken from the source of `bee_message`
/// and not proved here.
#[verifier::external_body]
fn new_message_id(bytes: [u8; MESSAGE_ID_LENGTH]) -> (id: MessageId)
    ensures
        message_id_bytes(id) == bytes@,
{
    MessageId::new(bytes)
}

impl TryFrom<proto::RawMessageId> for MessageId {
    type Error = Error;

    /// Makes the identifier that holds the given bytes, where they are as many as
    /// an identifier has, and fails with `InvalidIdentifier` where they are not.
    fn try_from(value: proto::RawMessageId) -> (result: Result<Self, Self::Error>)
        ensures
            result is Ok <==> is_message_id(value@),
            result matches Ok(id) ==> message_id_bytes(id) == value@,
            result matches Err(error) ==> error == Error::InvalidIdentifier,
    {
        if value.id.len() != MESSAGE_ID_LENGTH {
            return Err(Error::InvalidIdentifier);
        }
        let mut bytes: [u8; MESSAGE_ID_LENGTH] = [0u8; MESSAGE_ID_LENGTH];
        for i in 0..MESSAGE_ID_LENGTH
            invariant
                value.id.len() == MESSAGE_ID_LENGTH,
                forall|j: int| 0 <= j < i ==> bytes@[j] == value.id@[j],
        {
            bytes[i] = value.id[i];
        }
        assert(bytes@ =~= value@);
        Ok(new_message_id(bytes))
    }
}

/// An identifier is known here by its bytes only, so what `try_from` returns is
/// stated in its own contract, over those bytes, and not as a value.
impl TryFromSpecImpl<proto::RawMessageId> for MessageId {
    open spec fn obeys_try_from_spec() -> bool {
        false
    }

    open spec fn try_from_spec(value: proto::RawMessageId) -> Result<Self, Self::Error> {
        arbitrary()
    }
}

} // verus!
