//! The capability a loadable puzzle format offers.

use vstd::prelude::*;

verus! {

/// Marks a puzzle file format that the pipeline can load. Conversions to
/// and from the serialized form, and to the common representation, are
/// still to be attached here.
pub trait PuzzleFormat {

}

} // verus!
