//! The kinds of failure the protocol reports.
use vstd::prelude::*;

verus! {

#[derive(PartialEq, Eq, Structural, Clone, Copy, Debug)]
pub enum SoupBinTcpError {
    /// A frame that is not a message of the expected side, or whose payload does not decode.
    DecodeError,
    /// A message too long for its length prefix or for the buffer it is written into.
    EncodeError,
    /// The handshake did not complete within its deadline.
    Timeout,
    /// The server refused the login; it has sent its refusal first.
    NotConnected,
    /// The peer closed the connection during the handshake.
    ConnectionReset,
    /// The handshake received a message it does not expect there.
    Other,
}

} // verus!
