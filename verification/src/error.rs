use vstd::prelude::*;

verus! {

/// The failures a push session can report.
#[derive(Clone, Copy, Debug, PartialEq, Eq, Structural)]
pub enum Error {
    /// A refspec was rejected on syntactic grounds.
    InvalidArgument,
    /// An operation was invoked outside the state in which it is legal.
    InvalidState,
    /// The transfer failed because the remote could not be reached.
    NetworkError,
    /// The transfer failed because the remote refused the credentials.
    AuthenticationError,
    /// The transfer failed because the peer violated the protocol.
    ProtocolError,
    /// Writing local tracking references failed after `applied` of them had
    /// already been moved; the writes already applied are not rolled back.
    ReferenceUpdateError { applied: usize },
    /// A status field reported by the remote was not valid UTF-8.
    EncodingError,
}

} // verus!
