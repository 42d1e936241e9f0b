//! The stream adapter over fahrenheit's TCP stream. Reads, writes and
//! flushes pass straight through to the wrapped stream; what the adapter
//! decides itself stands here.
use vstd::prelude::*;

verus! {

/// What a stream reports to the HTTP client about its connection, in the
/// terms of hyper's connection metadata.
#[derive(Clone, Copy, Debug, PartialEq, Eq, Structural)]
pub struct ConnectionInfo {
    /// The transport leads to an HTTP proxy.
    pub proxied: bool,
    /// HTTP/2 was negotiated on the transport.
    pub negotiated_h2: bool,
}

/// Wraps fahrenheit's TCP stream for the HTTP client.
pub struct TcpStreamAdapter(pub fahrenheit::AsyncTcpStream);

impl TcpStreamAdapter {
    /// Shutting down reports success at once and leaves the stream as it
    /// was: the socket closes when the stream is dropped. So any number of
    /// shutdowns succeed, and reads and writes after them see the same
    /// stream as before.
    pub fn poll_shutdown(&mut self) -> (r: Result<(), std::io::Error>)
        ensures
            r is Ok,
            *final(self) == *old(self),
    {
        Ok(())
    }

    /// The metadata reported for every stream: a new, direct connection,
    /// neither proxied nor multiplexed over HTTP/2.
    pub fn connected(&self) -> (r: ConnectionInfo)
        ensures
            !r.proxied,
            !r.negotiated_h2,
    {
        ConnectionInfo { proxied: false, negotiated_h2: false }
    }
}

} // verus!
