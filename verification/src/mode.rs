//! The run mode: every externally observable side effect is gated by it.

use vstd::prelude::*;

verus! {

/// Whether commands are actually spawned (`Wet`) or only previewed (`Dry`).
/// Set once per run and immutable for its duration.
#[derive(Clone, Copy, Debug, PartialEq, Eq, Structural)]
pub enum RunType {
    Dry,
    Wet,
}

} // verus!
