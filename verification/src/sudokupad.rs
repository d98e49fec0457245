//! Records of the sudokupad puzzle file format.

use vstd::prelude::*;

verus! {

/// The descriptive header of a puzzle.
#[derive(Debug, Default, Clone)]
pub struct Metadata {
    pub source: String,
    pub title: String,
    pub author: String,
    pub rules: String,
    pub msgcorrect: Option<String>,
    pub antiknight: bool,
    pub antiking: bool,
}

/// A two-dimensional position, written as a two-element list in the file
/// format.
#[derive(Debug, Default, Clone, Copy)]
pub struct Pos<T> {
    pub x: T,
    pub y: T,
}

impl<T> Pos<T> {
    /// Pairs the two coordinates into a position.
    pub fn new(x: T, y: T) -> (r: Self)
        ensures
            r.x == x,
            r.y == y,
    {
        Pos { x, y }
    }
}

} // verus!
