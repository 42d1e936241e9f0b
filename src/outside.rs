//! Types of the runtime and of std that the library carries through without
//! looking inside, and the runtime's scheduler.
use vstd::prelude::*;

verus! {

/// fahrenheit's non-blocking TCP stream; its reads and writes are I/O done
/// outside the library.
#[verifier::external_type_specification]
#[verifier::external_body]
pub struct ExAsyncTcpStream(fahrenheit::AsyncTcpStream);

/// std's I/O error, the error type of the stream operations.
#[verifier::external_type_specification]
#[verifier::external_body]
pub struct ExIoError(std::io::Error);

/// Relies on fahrenheit's `spawn`: the future is polled once and, unless it
/// is already done, kept on the current thread's event loop; the call does
/// not wait for it and hands back nothing of its outcome.
pub assume_specification<F: std::future::Future<Output = ()> + Send + 'static>[ fahrenheit::spawn::<F> ](f: F);

} // verus!
