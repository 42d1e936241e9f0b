//! Runs an asynchronous HTTP client on the fahrenheit runtime: a connector
//! that turns a request target's authority into a `host:port` address, a stream adapter
//! over fahrenheit's TCP stream, and an executor that hands futures to
//! fahrenheit's scheduler.
pub mod authority;
pub mod connector;
pub mod executor;
pub mod outside;
pub mod stream;

pub use authority::{Authority, ConnectError};
pub use connector::Connector;
pub use executor::FahrenheitExecutor;
pub use stream::{ConnectionInfo, TcpStreamAdapter};
