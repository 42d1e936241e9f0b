//! The authority of a request target (host and optional port) and the
//! `host:port` address that a connection is opened to.
use vstd::prelude::*;
use vstd::string::StringExecFns;

verus! {

/// The port used when a request target names none (plain HTTP).
pub const DEFAULT_PORT: u16 = 80;

/// The decimal digit character for `d < 10`.
pub open spec fn digit_char(d: nat) -> char {
    ((d + 48) as u8) as char
}

/// The decimal text of `n`, without leading zeros.
pub open spec fn decimal(n: nat) -> Seq<char>
    decreases n,
{
    if n < 10 {
        seq![digit_char(n)]
    } else {
        decimal(n / 10) + seq![digit_char(n % 10)]
    }
}

/// The text `host:port`.
pub open spec fn address_text(host: Seq<char>, port: u16) -> Seq<char> {
    host + seq![':'] + decimal(port as nat)
}

/// The one-character text of the digit `d`.
fn digit_str(d: u16) -> (r: &'static str)
    requires
        d < 10,
    ensures
        r@ == seq![digit_char(d as nat)],
{
    proof {
        reveal_strlit("0");
        reveal_strlit("1");
        reveal_strlit("2");
        reveal_strlit("3");
        reveal_strlit("4");
        reveal_strlit("5");
        reveal_strlit("6");
        reveal_strlit("7");
        reveal_strlit("8");
        reveal_strlit("9");
    }
    match d {
        0 => "0",
        1 => "1",
        2 => "2",
        3 => "3",
        4 => "4",
        5 => "5",
        6 => "6",
        7 => "7",
        8 => "8",
        _ => "9",
    }
}

/// Writes `n` in decimal.
pub fn decimal_text(n: u16) -> (r: String)
    ensures
        r@ == decimal(n as nat),
    decreases n,
{
    if n < 10 {
        String::from_str(digit_str(n))
    } else {
        let mut s = decimal_text(n / 10);
        s.append(digit_str(n % 10));
        s
    }
}

/// Why no address can be formed for a request target.
#[derive(Clone, Copy, Debug, PartialEq, Eq, Structural)]
pub enum ConnectError {
    /// The request target names no host; no default host is ever used.
    MissingHost,
}

/// What the connector reads of a request target: its host and its port,
/// each possibly absent.
#[derive(Debug)]
pub struct Authority {
    pub host: Option<String>,
    pub port: Option<u16>,
}

/// The address for a host and an optional port, or why there is none.
pub open spec fn address_of(host: Option<Seq<char>>, port: Option<u16>) -> Result<
    Seq<char>,
    ConnectError,
> {
    match host {
        Some(h) => Ok(address_text(h, port.unwrap_or(DEFAULT_PORT))),
        None => Err(ConnectError::MissingHost),
    }
}

/// `r` is the executable form of the address result `a`.
pub open spec fn address_result_is(
    r: Result<String, ConnectError>,
    a: Result<Seq<char>, ConnectError>,
) -> bool {
    match r {
        Ok(s) => a == Ok::<Seq<char>, ConnectError>(s@),
        Err(e) => a == Err::<Seq<char>, ConnectError>(e),
    }
}

impl Authority {
    /// The host as characters, if there is one.
    pub open spec fn host_view(&self) -> Option<Seq<char>> {
        match self.host {
            Some(h) => Some(h@),
            None => None,
        }
    }

    /// The address this authority denotes, or why there is none.
    pub open spec fn address_spec(&self) -> Result<Seq<char>, ConnectError> {
        address_of(self.host_view(), self.port)
    }

    /// The port to connect to: the one named, else the default port.
    pub fn effective_port(&self) -> (r: u16)
        ensures
            r == self.port.unwrap_or(DEFAULT_PORT),
    {
        match self.port {
            Some(p) => p,
            None => DEFAULT_PORT,
        }
    }

    /// The `host:port` address to connect to. A named port is used as it
    /// is, a missing one becomes the default port, and a missing host is an
    /// error.
    pub fn address(&self) -> (r: Result<String, ConnectError>)
        ensures
            address_result_is(r, self.address_spec()),
            match (self.host, self.port) {
                (Some(h), Some(p)) => r is Ok && r->Ok_0@ == h@ + seq![':'] + decimal(p as nat),
                (Some(h), None) => r is Ok && r->Ok_0@ == h@ + seq![':', '8', '0'],
                (None, _) => r == Err::<String, ConnectError>(ConnectError::MissingHost),
            },
    {
        match &self.host {
            Some(h) => {
                let mut s = h.clone();
                s.append(":");
                let port = decimal_text(self.effective_port());
                s.append(port.as_str());
                proof {
                    reveal_strlit(":");
                    assert(s@ == address_text(h@, self.port.unwrap_or(DEFAULT_PORT)));
                    reveal_with_fuel(decimal, 2);
                }
                Ok(s)
            },
            None => Err(ConnectError::MissingHost),
        }
    }
}

} // verus!
