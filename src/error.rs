use vstd::prelude::*;

verus! {

/// Every way a decode step can fail.
#[derive(Debug, Clone, PartialEq, Eq)]
pub enum DecodeError {
    /// A read would go past the end of the buffer.
    OutOfRange,
    /// Bytes that should hold a string are not valid UTF-8.
    InvalidEncoding,
    /// A chunk's size would read past the end of the buffer.
    TruncatedChunk,
    /// A chunk is present but its payload has the wrong shape.
    MalformedChunk,
    /// A chunk that the format requires is absent.
    MissingChunk,
    /// A chunk handed to a decoder has another tag or size than the decoder expects.
    SchemaMismatch,
    /// The chunks of a file match none of the known variants of its format.
    UnknownVariant,
    /// A column lies outside the record's width.
    ColumnOutOfRange,
    /// A record file's header disagrees with the file's length.
    InvalidHeader,
    /// A lookup found no row with the requested id.
    MissingRecord,
    /// Two rows of one table carry the same id.
    DuplicateId,
    /// A failure described in words.
    Message(String),
}

/// Fails with a message.
pub fn err<T>(reason: String) -> (r: Result<T, DecodeError>)
    ensures
        r matches Err(DecodeError::Message(m)) && m == reason,
{
    Err(DecodeError::Message(reason))
}

} // verus!
