//! The connector: the address that a connection for a request target is
//! opened to.
use vstd::prelude::*;
use crate::authority::{Authority, ConnectError, address_result_is, decimal};

verus! {

/// Opens connections for the HTTP client. It holds no state: no pool, no
/// limit, nothing shared between connection attempts.
#[derive(Clone, Copy, Debug, Default)]
pub struct Connector;

impl Connector {
    /// The connector is always ready for another connection request, and
    /// asking does not change it.
    pub fn poll_ready(&mut self) -> (r: Result<(), std::io::Error>)
        ensures
            r is Ok,
            *final(self) == *old(self),
    {
        Ok(())
    }

    /// The `host:port` address that a connection for the request target
    /// `req` is opened to: its host and port, or port 80 where it names
    /// none. A target without a host gives `MissingHost`, every time, and
    /// no connection may be attempted for it.
    pub fn target_address(&self, req: &Authority) -> (r: Result<String, ConnectError>)
        ensures
            address_result_is(r, req.address_spec()),
            match (req.host, req.port) {
                (Some(h), Some(p)) => r is Ok && r->Ok_0@ == h@ + seq![':'] + decimal(p as nat),
                (Some(h), None) => r is Ok && r->Ok_0@ == h@ + seq![':', '8', '0'],
                (None, _) => r == Err::<String, ConnectError>(ConnectError::MissingHost),
            },
    {
        req.address()
    }
}

} // verus!
