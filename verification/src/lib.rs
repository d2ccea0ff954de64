//! Incremental chord classification.
//!
//! A caller owns a [`chord::Chord`] record and feeds it interval tokens in
//! ascending scale-degree order: third-affecting tokens first, then
//! fifth-affecting ones, then the sixth.  Each handler call is a single
//! synchronous state transition that either fully applies its effect or
//! fails without touching the record.

pub mod chord;
pub mod interval;

use vstd::prelude::*;

verus! {

/// Quality of the third degree of a chord.
#[derive(Debug, PartialEq)]
pub enum Third {
    Minor,
    Major,
}

/// Derived triad classification, computed from the third and the fifth.
#[derive(Debug, PartialEq)]
pub enum Triad {
    Minor,
    Major,
    Diminished,
    Augmented,
}

/// Quality of the fifth degree of a chord.
#[derive(Debug, PartialEq)]
pub enum Fifth {
    Diminished,
    Perfect,
    Augmented,
}

/// Quality of the seventh degree of a chord.  Only the diminished seventh
/// can arise here, via the sixth-collapse path on a diminished triad.
#[derive(Debug, PartialEq)]
pub enum Seventh {
    Diminished,
}

} // verus!
