//! Trusted declarations for the socket transport: one fresh local-socket
//! connection per round trip, one framed request written, one framed
//! response read, then the connection is dropped.

use vstd::prelude::*;
use interprocess::local_socket::LocalSocketStream;

verus! {

#[verifier::external_type_specification]
#[verifier::external_body]
pub struct ExLocalSocketStream(LocalSocketStream);

/// Relies on interprocess::local_socket::LocalSocketStream::connect: yields a
/// connected stream, or nothing when no listener accepts connections at
/// `addr`. The operating system refuses a dead address immediately, so a
/// failure does not block the caller.
#[verifier::external_body]
pub(crate) fn connect(addr: &str) -> (r: Option<LocalSocketStream>) {
    LocalSocketStream::connect(addr).ok()
}

/// Relies on std::io::Write::write_all: a `true` result means every byte of
/// `bytes` was handed to the stream, in order.
#[verifier::external_body]
pub(crate) fn write_all_bytes(stream: &mut LocalSocketStream, bytes: &[u8]) -> (r: bool) {
    std::io::Write::write_all(stream, bytes).is_ok()
}

/// Relies on std::io::Read::read_to_end: blocks until the peer closes its end
/// of the stream and returns every byte that arrived. Nothing is promised
/// about the bytes themselves.
#[verifier::external_body]
pub(crate) fn read_until_eof(stream: &mut LocalSocketStream) -> (r: Option<Vec<u8>>) {
    let mut buf = Vec::new();
    match std::io::Read::read_to_end(stream, &mut buf) {
        Ok(_) => Some(buf),
        Err(_) => None,
    }
}

} // verus!
