//! Failure conditions of the scoring core.

use vstd::prelude::*;

verus! {

/// Why an image could not be turned into a signal.
#[derive(Clone, Copy, Debug, PartialEq, Eq, Structural)]
pub enum ScoreError {
    /// The image has no pixels: its width or its height is zero.
    InvalidInput,
}

} // verus!
