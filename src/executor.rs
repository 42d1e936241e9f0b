//! The executor adapter: hands the HTTP client's background futures to
//! fahrenheit's scheduler.
use vstd::prelude::*;

verus! {

/// A stateless handle on fahrenheit's scheduler.
#[derive(Clone, Copy, Debug, Default)]
pub struct FahrenheitExecutor;

impl FahrenheitExecutor {
    /// Queues `fut` on the runtime and returns without waiting for it; its
    /// outcome is never observed here.
    pub fn execute<F: std::future::Future<Output = ()> + Send + 'static>(&self, fut: F) {
        fahrenheit::spawn(fut);
    }
}

} // verus!
