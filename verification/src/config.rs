//! Persisted application configuration.
//!
//! The host's configuration system stores, watches and reloads this; the core
//! only carries the value.  Its one field is the scaffold the application
//! grew from and is not yet read anywhere.

use vstd::prelude::*;

verus! {

/// Configuration data that persists between application runs.
#[derive(Clone, Debug, PartialEq, Eq)]
pub struct Config {
    demo: String,
}

impl View for Config {
    type V = Seq<char>;

    closed spec fn view(&self) -> Seq<char> {
        self.demo@
    }
}

impl Default for Config {
    fn default() -> (r: Config)
        ensures
            r@ =~= Seq::<char>::empty(),
    {
        Config { demo: String::new() }
    }
}

} // verus!
