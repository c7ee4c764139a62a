//! The microtask queue of a page that hosts the program as WebAssembly.

use vstd::prelude::*;
use crate::outside::write_text;

verus! {

/// The token for the microtask queue of the hosting page.
///
/// The queue belongs to the host and is there for the whole life of the
/// program, so this type holds nothing. Every value of it stands for the same
/// queue. The queue runs on one thread, and a task is first polled on the
/// microtask tick after it was submitted.
///
/// Only a program that runs in a page has such a queue, and nothing here can
/// find out whether it does. So this library does not submit to the queue
/// itself: it wraps the task and makes the handle (`remote_handle`), and
/// leaves the call of the host to the code around it.
#[derive(Copy, Clone, PartialEq, Eq, Structural)]
pub struct Bindgen;

impl Bindgen {
    /// The token for the queue.
    pub fn new() -> (token: Self)
        ensures
            token == Bindgen,
    {
        Self::default()
    }

    /// The name under which the engine shows in debug output.
    pub fn name(&self) -> (text: &'static str)
        ensures
            text@ == "WASM Bindgen executor"@,
    {
        "WASM Bindgen executor"
    }
}

impl Default for Bindgen {
    fn default() -> (token: Self)
        ensures
            token == Bindgen,
    {
        Bindgen
    }
}

impl std::fmt::Debug for Bindgen {
    /// Writes the engine's name.
    fn fmt(&self, f: &mut std::fmt::Formatter<'_>) -> std::fmt::Result {
        write_text(f, self.name())
    }
}

} // verus!
