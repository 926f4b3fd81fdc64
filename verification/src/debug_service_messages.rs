//! Messages of the debug service: requests for the debug log buffer and their responses.
//!
//! Every message kind travels as discriminant 1 (the `GetMsgs` command); a response carries the
//! [`STD_DEBUG_BUF_SIZE`] bytes of the log buffer as its payload.
use vstd::prelude::*;

use crate::relay::mctp::{MessageSerializationError, SerializableMessage};

verus! {

/// Standard Debug Service Log Buffer Size
pub const STD_DEBUG_BUF_SIZE: usize = 128;

/// Discriminant of the `GetMsgs` debug command: get the buffer of debug messages, if available.
pub const DEBUG_CMD_GET_MSGS: u16 = 1;

/// ODP Specific Debug Commands
#[derive(Copy, Clone, Debug, PartialEq, Eq, Structural)]
enum DebugCmd {
    /// Get buffer of debug messages, if available.
    /// Can be used to poll debug messages.
    GetMsgs,
}

impl DebugCmd {
    fn value(self) -> (r: u16)
        ensures
            r == DEBUG_CMD_GET_MSGS,
    {
        match self {
            DebugCmd::GetMsgs => DEBUG_CMD_GET_MSGS,
        }
    }

    fn from_value(value: u16) -> (r: Option<DebugCmd>)
        ensures
            value == DEBUG_CMD_GET_MSGS ==> r == Some(DebugCmd::GetMsgs),
            value != DEBUG_CMD_GET_MSGS ==> r is None,
    {
        if value == DEBUG_CMD_GET_MSGS {
            Some(DebugCmd::GetMsgs)
        } else {
            None
        }
    }
}

/// Requests to the debug service
#[derive(PartialEq, Eq, Clone, Copy, Debug, Structural)]
pub enum DebugRequest {
    /// Get the buffer of debug messages
    DebugGetMsgsRequest,
}

/// The request that `discriminant` names.
pub open spec fn debug_request_from(discriminant: u16) -> Result<DebugRequest, MessageSerializationError> {
    if discriminant == DEBUG_CMD_GET_MSGS {
        Ok(DebugRequest::DebugGetMsgsRequest)
    } else {
        Err(MessageSerializationError::UnknownMessageDiscriminant(discriminant))
    }
}

impl SerializableMessage for DebugRequest {
    fn serialize(self, buffer: &mut [u8]) -> (r: Result<usize, MessageSerializationError>)
        ensures
            r == Ok::<usize, MessageSerializationError>(0),
            final(buffer)@ == old(buffer)@,
    {
        match self {
            Self::DebugGetMsgsRequest => Ok(0),
        }
    }

    fn deserialize(discriminant: u16, buffer: &[u8]) -> (r: Result<Self, MessageSerializationError>)
        ensures
            r == debug_request_from(discriminant),
    {
        match DebugCmd::from_value(discriminant) {
            Some(DebugCmd::GetMsgs) => Ok(Self::DebugGetMsgsRequest),
            None => Err(MessageSerializationError::UnknownMessageDiscriminant(discriminant)),
        }
    }

    fn discriminant(&self) -> (r: u16)
        ensures
            r == DEBUG_CMD_GET_MSGS,
    {
        match self {
            DebugRequest::DebugGetMsgsRequest => DebugCmd::GetMsgs.value(),
        }
    }
}

/// Responses of the debug service
#[derive(PartialEq, Eq, Clone, Copy, Debug)]
pub enum DebugResponse {
    /// The buffer of debug messages
    DebugGetMsgsResponse { debug_buf: [u8; STD_DEBUG_BUF_SIZE] },
}

/// The payload of a response: its log buffer.
pub open spec fn debug_payload(r: DebugResponse) -> Seq<u8> {
    match r {
        DebugResponse::DebugGetMsgsResponse { debug_buf } => debug_buf@,
    }
}

impl SerializableMessage for DebugResponse {
    fn serialize(self, buffer: &mut [u8]) -> (r: Result<usize, MessageSerializationError>)
        ensures
            old(buffer)@.len() < STD_DEBUG_BUF_SIZE ==> r == Err::<usize, MessageSerializationError>(
                MessageSerializationError::BufferTooSmall,
            ) && final(buffer)@ == old(buffer)@,
            old(buffer)@.len() >= STD_DEBUG_BUF_SIZE ==> r == Ok::<usize, MessageSerializationError>(
                STD_DEBUG_BUF_SIZE,
            ) && final(buffer)@ == debug_payload(self) + old(buffer)@.subrange(
                STD_DEBUG_BUF_SIZE as int,
                old(buffer)@.len() as int,
            ),
    {
        match self {
            Self::DebugGetMsgsResponse { debug_buf } => {
                if buffer.len() < STD_DEBUG_BUF_SIZE {
                    return Err(MessageSerializationError::BufferTooSmall);
                }
                let ghost start = buffer@;
                let mut i: usize = 0;
                while i < STD_DEBUG_BUF_SIZE
                    invariant
                        0 <= i <= STD_DEBUG_BUF_SIZE,
                        start.len() >= STD_DEBUG_BUF_SIZE,
                        debug_buf@.len() == STD_DEBUG_BUF_SIZE,
                        buffer@ =~= debug_buf@.subrange(0, i as int) + start.subrange(i as int, start.len() as int),
                    decreases STD_DEBUG_BUF_SIZE - i,
                {
                    buffer[i] = debug_buf[i];
                    i = i + 1;
                }
                Ok(STD_DEBUG_BUF_SIZE)
            },
        }
    }

    fn deserialize(discriminant: u16, buffer: &[u8]) -> (r: Result<Self, MessageSerializationError>)
        ensures
            discriminant != DEBUG_CMD_GET_MSGS ==> r == Err::<DebugResponse, MessageSerializationError>(
                MessageSerializationError::UnknownMessageDiscriminant(discriminant),
            ),
            discriminant == DEBUG_CMD_GET_MSGS && buffer@.len() < STD_DEBUG_BUF_SIZE ==> r == Err::<
                DebugResponse,
                MessageSerializationError,
            >(MessageSerializationError::BufferTooSmall),
            discriminant == DEBUG_CMD_GET_MSGS && buffer@.len() >= STD_DEBUG_BUF_SIZE ==> (r matches Ok(
                m,
            ) && debug_payload(m) == buffer@.subrange(0, STD_DEBUG_BUF_SIZE as int)),
    {
        match DebugCmd::from_value(discriminant) {
            Some(DebugCmd::GetMsgs) => {
                if buffer.len() < STD_DEBUG_BUF_SIZE {
                    return Err(MessageSerializationError::BufferTooSmall);
                }
                let mut debug_buf = [0u8; STD_DEBUG_BUF_SIZE];
                let mut i: usize = 0;
                while i < STD_DEBUG_BUF_SIZE
                    invariant
                        0 <= i <= STD_DEBUG_BUF_SIZE,
                        buffer@.len() >= STD_DEBUG_BUF_SIZE,
                        debug_buf@.len() == STD_DEBUG_BUF_SIZE,
                        forall|j: int| 0 <= j < i ==> debug_buf@[j] == buffer@[j],
                    decreases STD_DEBUG_BUF_SIZE - i,
                {
                    debug_buf[i] = buffer[i];
                    i = i + 1;
                }
                assert(debug_buf@ =~= buffer@.subrange(0, STD_DEBUG_BUF_SIZE as int));
                Ok(Self::DebugGetMsgsResponse { debug_buf })
            },
            None => Err(MessageSerializationError::UnknownMessageDiscriminant(discriminant)),
        }
    }

    fn discriminant(&self) -> (r: u16)
        ensures
            r == DEBUG_CMD_GET_MSGS,
    {
        match self {
            DebugResponse::DebugGetMsgsResponse { .. } => DebugCmd::GetMsgs.value(),
        }
    }
}

/// A serialized response reads back as its own payload: the bytes that serialization writes
/// at the front of a buffer are the bytes that deserialization takes as the log buffer.
pub proof fn lemma_debug_response_roundtrip(r: DebugResponse, before: Seq<u8>)
    requires
        before.len() >= STD_DEBUG_BUF_SIZE,
    ensures
        ({
            let written = debug_payload(r) + before.subrange(STD_DEBUG_BUF_SIZE as int, before.len() as int);
            &&& written.len() == before.len()
            &&& written.subrange(0, STD_DEBUG_BUF_SIZE as int) == debug_payload(r)
        }),
{
    let written = debug_payload(r) + before.subrange(STD_DEBUG_BUF_SIZE as int, before.len() as int);
    assert(written.subrange(0, STD_DEBUG_BUF_SIZE as int) =~= debug_payload(r));
}

/// A request deserializes from its own discriminant, whatever the payload.
pub proof fn lemma_debug_request_roundtrip(r: DebugRequest)
    ensures
        debug_request_from(DEBUG_CMD_GET_MSGS) == Ok::<DebugRequest, MessageSerializationError>(r),
{
}

/// Errors of the debug service
#[derive(Copy, Clone, Debug, PartialEq, Eq, Structural)]
pub enum DebugError {
    /// An unspecified failure
    UnspecifiedFailure,
}

impl SerializableMessage for DebugError {
    fn serialize(self, buffer: &mut [u8]) -> (r: Result<usize, MessageSerializationError>)
        ensures
            r == Ok::<usize, MessageSerializationError>(0),
            final(buffer)@ == old(buffer)@,
    {
        match self {
            Self::UnspecifiedFailure => Ok(0),
        }
    }

    fn deserialize(discriminant: u16, buffer: &[u8]) -> (r: Result<Self, MessageSerializationError>)
        ensures
            r == Err::<DebugError, MessageSerializationError>(
                MessageSerializationError::Other("unimplemented - don't need to deserialize responses on the EC side"),
            ),
    {
        Err(MessageSerializationError::Other("unimplemented - don't need to deserialize responses on the EC side"))
    }

    fn discriminant(&self) -> (r: u16)
        ensures
            r == 1,
    {
        match self {
            DebugError::UnspecifiedFailure => 1,
        }
    }
}

/// Result of a debug request
pub type DebugResult = Result<DebugResponse, DebugError>;

} // verus!
