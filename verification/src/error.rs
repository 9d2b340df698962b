use vstd::prelude::*;

verus! {

/// The typed causes on which a connection attempt or handshake can fail.
///
/// `IO` stands for a failure of the underlying byte stream; the transport
/// layer that performs the reads and writes maps its own error onto it.
/// The remaining variants are protocol errors raised by the verified codecs
/// and the handshake state machine.
#[derive(Debug, PartialEq, Eq)]
pub enum NetworkError {
    IO,
    InvalidHeader,
    InvalidMessageKind(i32),
    UnexpectedHandshake(&'static str),
}

impl NetworkError {
    /// A short human-readable description, for logging by callers.
    pub fn describe(&self) -> (r: &'static str)
        ensures
            r == (match self {
                NetworkError::IO => "io error",
                NetworkError::InvalidHeader => "invalid message header",
                NetworkError::InvalidMessageKind(_) => "invalid message kind",
                NetworkError::UnexpectedHandshake(reason) => reason,
            }),
    {
        match self {
            NetworkError::IO => "io error",
            NetworkError::InvalidHeader => "invalid message header",
            NetworkError::InvalidMessageKind(_) => "invalid message kind",
            NetworkError::UnexpectedHandshake(reason) => reason,
        }
    }
}

} // verus!
