//! What a run of a test case can be told.
use std::time::Duration;
use vstd::prelude::*;

verus! {

/// Options of a run.
#[derive(Debug)]
pub struct Options {
    /// How long the run may take. Nothing reads it yet.
    pub _timeout: Option<Duration>,
    /// Whether the run tells what it does.
    pub debug: bool,
}

impl Clone for Options {
    fn clone(&self) -> (options: Self)
        ensures
            options == *self,
    {
        Options { _timeout: self._timeout, debug: self.debug }
    }
}

impl Default for Options {
    /// No time limit, and a silent run.
    fn default() -> (options: Self)
        ensures
            options._timeout is None,
            !options.debug,
    {
        Options { _timeout: None, debug: false }
    }
}

} // verus!
