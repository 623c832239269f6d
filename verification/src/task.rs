//! Tasks where no async runtime is enabled: none can be spawned.

use std::future::Future;

use futures::future::{ready, Ready};
use vstd::future::*;
use vstd::prelude::*;

verus! {

/// A task could not be joined.
#[derive(Debug, Copy, Clone, PartialEq, Eq, Structural)]
pub struct JoinError;

impl JoinError {
    /// What to tell the user.
    pub fn message(&self) -> (message: String)
        ensures
            message@ == "Please enable a runtime"@,
    {
        "Please enable a runtime".to_owned()
    }
}

/// Without a runtime the future is dropped, and joining it fails at once.
pub fn spawn_task<F, T>(_future: F) -> (joined: Ready<Result<T, JoinError>>) where
    F: Future<Output = T> + Send + 'static,
    T: Send + 'static,

    ensures
        joined@ == Err::<T, JoinError>(JoinError),
{
    ready(Err(JoinError))
}

/// Without a runtime the function is dropped, and joining it fails at once.
pub fn spawn_blocking<F, T>(_function: F) -> (joined: Ready<Result<T, JoinError>>) where
    F: FnOnce() -> T + Send + 'static,
    T: Send + 'static,

    ensures
        joined@ == Err::<T, JoinError>(JoinError),
{
    ready(Err(JoinError))
}

} // verus!
