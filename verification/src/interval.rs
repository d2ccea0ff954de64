//! The interval vocabulary: named distances from a chord's root, used as
//! the token alphabet of the classifier, plus the partial mapping from an
//! interval to its chord-symbol fragment.

use vstd::prelude::*;

verus! {

/// A named interval distance from the root, unison through double octave.
#[derive(Debug, PartialEq)]
pub enum Interval {
    Unison,
    Min2,
    Maj2,
    Min3,
    Maj3,
    Perf4,
    Aug4,
    Dim5,
    Perf5,
    Aug5,
    Min6,
    Maj6,
    Dim7,
    Min7,
    Maj7,
    Octave,
    Min9,
    Maj9,
    Min10,
    Maj10,
    Perf11,
    Aug11,
    Dim12,
    Perf12,
    Min13,
    Maj13,
    Min14,
    Maj14,
    DoubleOct,
}

/// The canonical chord-symbol fragment of an interval, where one is
/// defined.  Structural intervals such as the major third or the perfect
/// fifth are spelled by the chord quality itself, never written as a
/// fragment, and map to `None`.
pub open spec fn symbol(i: Interval) -> Option<Seq<char>> {
    match i {
        Interval::Min2 => Some("b2"@),
        Interval::Maj2 => Some("2"@),
        Interval::Min3 => Some("#2"@),
        Interval::Perf4 => Some("4"@),
        Interval::Aug4 => Some("#4"@),
        Interval::Dim5 => Some("b5"@),
        Interval::Aug5 => Some("b6"@),
        Interval::Min6 => Some("b6"@),
        Interval::Maj6 => Some("6"@),
        Interval::Dim7 => Some("bb7"@),
        Interval::Min7 => Some("b7"@),
        Interval::Maj7 => Some("7"@),
        Interval::Min9 => Some("b9"@),
        Interval::Maj9 => Some("9"@),
        Interval::Perf11 => Some("11"@),
        Interval::Aug11 => Some("#11"@),
        Interval::Dim12 => Some("#11"@),
        Interval::Min13 => Some("b13"@),
        Interval::Maj13 => Some("13"@),
        _ => None,
    }
}

/// The error message reported for an interval that has no symbol.
pub open spec fn no_symbol_message(i: Interval) -> Seq<char> {
    match i {
        Interval::Unison => "Cannot write Unison"@,
        Interval::Maj3 => "Cannot write Maj3"@,
        Interval::Perf5 => "Cannot write Perf5"@,
        Interval::Octave => "Cannot write Octave"@,
        Interval::Min10 => "Cannot write Min10"@,
        Interval::Maj10 => "Cannot write Maj10"@,
        Interval::Perf12 => "Cannot write Perf12"@,
        Interval::Min14 => "Cannot write Min14"@,
        Interval::Maj14 => "Cannot write Maj14"@,
        Interval::DoubleOct => "Cannot write DoubleOct"@,
        _ => Seq::empty(),
    }
}

impl Interval {
    /// The chord-symbol fragment of this interval, or an error naming the
    /// interval when no fragment is defined for it.
    pub fn as_written(&self) -> (r: Result<&str, String>)
        ensures
            r is Ok <==> symbol(*self) is Some,
            r matches Ok(t) ==> Some(t@) == symbol(*self),
            r matches Err(msg) ==> msg@ == no_symbol_message(*self),
    {
        let text = match self {
            Interval::Min2 => "b2",
            Interval::Maj2 => "2",
            Interval::Min3 => "#2",
            Interval::Perf4 => "4",
            Interval::Aug4 => "#4",
            Interval::Dim5 => "b5",
            Interval::Aug5 | Interval::Min6 => "b6",
            Interval::Maj6 => "6",
            Interval::Dim7 => "bb7",
            Interval::Min7 => "b7",
            Interval::Maj7 => "7",
            Interval::Min9 => "b9",
            Interval::Maj9 => "9",
            Interval::Perf11 => "11",
            Interval::Aug11 | Interval::Dim12 => "#11",
            Interval::Min13 => "b13",
            Interval::Maj13 => "13",
            Interval::Unison => return Err("Cannot write Unison".to_owned()),
            Interval::Maj3 => return Err("Cannot write Maj3".to_owned()),
            Interval::Perf5 => return Err("Cannot write Perf5".to_owned()),
            Interval::Octave => return Err("Cannot write Octave".to_owned()),
            Interval::Min10 => return Err("Cannot write Min10".to_owned()),
            Interval::Maj10 => return Err("Cannot write Maj10".to_owned()),
            Interval::Perf12 => return Err("Cannot write Perf12".to_owned()),
            Interval::Min14 => return Err("Cannot write Min14".to_owned()),
            Interval::Maj14 => return Err("Cannot write Maj14".to_owned()),
            Interval::DoubleOct => return Err("Cannot write DoubleOct".to_owned()),
        };

        Ok(text)
    }
}

} // verus!
