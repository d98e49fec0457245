//! Puzzle references whose payload id is fully known.

use vstd::prelude::*;

use super::parsed_url::Url;
use super::parsed_url::UrlModel;

verus! {

/// Model of the three id encodings used by the sudokupad site.
pub ghost enum SudokuPadFullUrlModel {
    Scl(Seq<char>),
    Scf(Seq<char>),
    FPuz(Seq<char>),
}

/// Model of a resolved puzzle reference.
pub ghost enum ResolvedUrlModel {
    FPuzzles(Seq<char>),
    SudokuPad(SudokuPadFullUrlModel),
    SudokuMaker(Seq<char>),
    Penpa(UrlModel),
}

/// The three alternative encodings in which the sudokupad site embeds a
/// puzzle id.
#[derive(Clone)]
pub enum SudokuPadFullUrl {
    Scl(String),
    Scf(String),
    FPuz(String),
}

impl View for SudokuPadFullUrl {
    type V = SudokuPadFullUrlModel;

    open spec fn view(&self) -> SudokuPadFullUrlModel {
        match self {
            SudokuPadFullUrl::Scl(id) => SudokuPadFullUrlModel::Scl(id@),
            SudokuPadFullUrl::Scf(id) => SudokuPadFullUrlModel::Scf(id@),
            SudokuPadFullUrl::FPuz(id) => SudokuPadFullUrlModel::FPuz(id@),
        }
    }
}

/// The supported hosting sites, each carrying its payload id.
#[derive(Clone)]
pub enum ResolvedUrlInner {
    FPuzzles(String),
    SudokuPad(SudokuPadFullUrl),
    SudokuMaker(String),
    Penpa(Box<Url>),
}

impl View for ResolvedUrlInner {
    type V = ResolvedUrlModel;

    open spec fn view(&self) -> ResolvedUrlModel {
        match self {
            ResolvedUrlInner::FPuzzles(id) => ResolvedUrlModel::FPuzzles(id@),
            ResolvedUrlInner::SudokuPad(full) => ResolvedUrlModel::SudokuPad(full@),
            ResolvedUrlInner::SudokuMaker(id) => ResolvedUrlModel::SudokuMaker(id@),
            ResolvedUrlInner::Penpa(url) => ResolvedUrlModel::Penpa(url@),
        }
    }
}

/// A puzzle reference whose payload id is already known; no further
/// network access is needed to decode it.
pub struct ResolvedUrl {
    inner: ResolvedUrlInner,
}

impl View for ResolvedUrl {
    type V = ResolvedUrlModel;

    closed spec fn view(&self) -> ResolvedUrlModel {
        self.inner@
    }
}

/// A decoded puzzle payload. Decoding is an external collaborator of this
/// crate, so the type carries no content yet.
pub struct PuzzleFormat {}

/// Errors of the decode step.
#[derive(Debug, PartialEq, Eq, Clone, Copy)]
pub enum DecodeError {
    Placeholder,
}

impl ResolvedUrl {
    pub(crate) fn new(inner: ResolvedUrlInner) -> (r: Self)
        ensures
            r@ == inner@,
    {
        ResolvedUrl { inner }
    }

    /// The site variant and payload id this reference resolves to.
    pub fn inner(&self) -> (r: &ResolvedUrlInner)
        ensures
            r@ == self@,
    {
        &self.inner
    }

    /// Decode the referenced payload.
    ///
    /// Decoding is an external collaborator and is not implemented here:
    /// every call reports the placeholder error.
    pub fn decode(&self) -> (r: Result<PuzzleFormat, DecodeError>)
        ensures
            r matches Err(e) && e == DecodeError::Placeholder,
    {
        match &self.inner {
            ResolvedUrlInner::FPuzzles(_) => Err(DecodeError::Placeholder),
            ResolvedUrlInner::SudokuPad(full) => match full {
                SudokuPadFullUrl::FPuz(_) => Err(DecodeError::Placeholder),
                SudokuPadFullUrl::Scl(_) => Err(DecodeError::Placeholder),
                SudokuPadFullUrl::Scf(_) => Err(DecodeError::Placeholder),
            },
            ResolvedUrlInner::SudokuMaker(_) => Err(DecodeError::Placeholder),
            ResolvedUrlInner::Penpa(_) => Err(DecodeError::Placeholder),
        }
    }
}

} // verus!
