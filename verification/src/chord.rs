//! The chord state record and the three classifier handlers that mutate
//! it, one interval token at a time.

use vstd::prelude::*;

use crate::interval::Interval;
use crate::{Fifth, Seventh, Third, Triad};

verus! {

/// The mathematical model of a [`Chord`]: the same fields, with the two
/// interval vectors abstracted to sequences.
#[verifier::ext_equal]
pub ghost struct ChordModel {
    pub third: Option<Third>,
    pub fifth: Option<Fifth>,
    pub seventh: Option<Seventh>,
    pub ninth: bool,
    pub eleventh: bool,
    pub triad: Option<Triad>,
    pub sus: Seq<Interval>,
    pub add: Seq<Interval>,
    pub lead: Option<Interval>,
}

impl ChordModel {
    /// Well-formedness of a chord state: suspensions are pending only
    /// while no third is established, a derived triad always rests on a
    /// recorded third and fifth, and the leading-tone slot can only ever
    /// hold the diminished seventh.
    pub open spec fn wf(self) -> bool {
        &&& self.sus.len() > 0 ==> self.third is None
        &&& self.triad is Some ==> self.third is Some && self.fifth is Some
        &&& self.lead is Some ==> self.lead == Some(Interval::Dim7)
    }
}

/// The model of a freshly created chord: every slot unset, both interval
/// sequences empty.
pub open spec fn init_model() -> ChordModel {
    ChordModel {
        third: None,
        fifth: None,
        seventh: None,
        ninth: false,
        eleventh: false,
        triad: None,
        sus: Seq::empty(),
        add: Seq::empty(),
        lead: None,
    }
}

/// Whether the third classifier accepts an interval at all: true thirds
/// and the three suspension candidates.
pub open spec fn third_accepts(i: Interval) -> bool {
    ||| i == Interval::Min2
    ||| i == Interval::Maj2
    ||| i == Interval::Min3
    ||| i == Interval::Maj3
    ||| i == Interval::Perf4
}

/// The transition the third classifier applies on an accepted interval.
/// A rejected interval leaves the model unchanged.
pub open spec fn third_step(m: ChordModel, i: Interval) -> ChordModel {
    match i {
        Interval::Min3 => ChordModel {
            third: Some(Third::Minor),
            sus: Seq::empty(),
            add: m.add + m.sus,
            ..m
        },
        Interval::Maj3 => ChordModel {
            third: Some(Third::Major),
            sus: Seq::empty(),
            add: (if m.third == Some(Third::Minor) {
                m.add.push(Interval::Min3)
            } else {
                m.add
            }) + m.sus,
            ..m
        },
        Interval::Min2 | Interval::Maj2 | Interval::Perf4 => {
            if m.third is None {
                ChordModel { sus: m.sus.push(i), ..m }
            } else {
                ChordModel { add: m.add.push(i), ..m }
            }
        },
        _ => m,
    }
}

/// Whether the fifth classifier accepts an interval at all: the two
/// diminished-fifth spellings, the perfect fifth, and the two
/// augmented-fifth spellings.
pub open spec fn fifth_accepts(i: Interval) -> bool {
    ||| i == Interval::Aug4
    ||| i == Interval::Dim5
    ||| i == Interval::Perf5
    ||| i == Interval::Aug5
    ||| i == Interval::Min6
}

/// The one theory-disallowed combination at the fifth stage: an
/// augmented-fifth spelling arriving over a minor third while the fifth
/// is still unset.
pub open spec fn fifth_inversion(m: ChordModel, i: Interval) -> bool {
    &&& (i == Interval::Aug5 || i == Interval::Min6)
    &&& m.fifth is None
    &&& m.third == Some(Third::Minor)
}

/// The transition the fifth classifier applies on an accepted interval.
/// A rejected interval, and the disallowed inversion, leave the model
/// unchanged.
pub open spec fn fifth_step(m: ChordModel, i: Interval) -> ChordModel {
    match i {
        Interval::Aug4 | Interval::Dim5 => {
            match m.third {
                None => ChordModel { sus: m.sus.push(i), ..m },
                Some(Third::Minor) => ChordModel {
                    fifth: Some(Fifth::Diminished),
                    triad: Some(Triad::Diminished),
                    ..m
                },
                Some(Third::Major) => ChordModel { add: m.add.push(i), ..m },
            }
        },
        Interval::Perf5 => {
            match m.third {
                None => ChordModel { fifth: Some(Fifth::Perfect), ..m },
                Some(Third::Minor) => ChordModel {
                    fifth: Some(Fifth::Perfect),
                    triad: Some(Triad::Minor),
                    add: if m.triad == Some(Triad::Diminished) {
                        m.add.push(Interval::Dim5)
                    } else {
                        m.add
                    },
                    ..m
                },
                Some(Third::Major) => ChordModel {
                    fifth: Some(Fifth::Perfect),
                    triad: Some(Triad::Major),
                    ..m
                },
            }
        },
        Interval::Aug5 | Interval::Min6 => {
            if m.fifth is None {
                match m.third {
                    None => ChordModel { fifth: Some(Fifth::Augmented), ..m },
                    Some(Third::Major) => ChordModel {
                        fifth: Some(Fifth::Augmented),
                        triad: Some(Triad::Augmented),
                        ..m
                    },
                    Some(Third::Minor) => m,
                }
            } else {
                ChordModel { add: m.add.push(Interval::Min6), ..m }
            }
        },
        _ => m,
    }
}

/// Whether the sixth classifier accepts an interval: only the major sixth.
pub open spec fn sixth_accepts(i: Interval) -> bool {
    i == Interval::Maj6
}

/// The transition the sixth classifier applies on a major sixth.  On a
/// diminished triad the sixth is reinterpreted as a diminished seventh;
/// otherwise it is a plain added sixth.  A rejected interval leaves the
/// model unchanged.
pub open spec fn sixth_step(m: ChordModel, i: Interval) -> ChordModel {
    match i {
        Interval::Maj6 => {
            if m.triad == Some(Triad::Diminished) {
                ChordModel {
                    seventh: Some(Seventh::Diminished),
                    lead: Some(Interval::Dim7),
                    ..m
                }
            } else {
                ChordModel { add: m.add.push(Interval::Maj6), ..m }
            }
        },
        _ => m,
    }
}

/// The chord state: a monotone accumulator of classification results,
/// created empty by the caller and mutated in place by the handlers.
#[derive(Debug, PartialEq)]
pub struct Chord {
    /// Quality of the third degree, set by the third classifier.
    pub third: Option<Third>,
    /// Quality of the fifth degree, set by the fifth classifier.
    pub fifth: Option<Fifth>,
    /// Quality of the seventh degree, set only via the sixth-collapse path.
    pub seventh: Option<Seventh>,
    /// Reserved flag; no handler currently sets it.
    pub ninth: bool,
    /// Reserved flag; no handler currently sets it.
    pub eleventh: bool,
    /// Derived triad classification, reconciled from third and fifth.
    pub triad: Option<Triad>,
    /// Pending suspension candidates, in arrival order: tokens that came
    /// before a third was established.
    pub sus: Vec<Interval>,
    /// Accepted extra color tones, in arrival order; append-only.
    pub add: Vec<Interval>,
    /// The implied leading-tone interval, set when a sixth collapses into
    /// a diminished seventh.
    pub lead: Option<Interval>,
}

impl View for Chord {
    type V = ChordModel;

    open spec fn view(&self) -> ChordModel {
        ChordModel {
            third: self.third,
            fifth: self.fifth,
            seventh: self.seventh,
            ninth: self.ninth,
            eleventh: self.eleventh,
            triad: self.triad,
            sus: self.sus@,
            add: self.add@,
            lead: self.lead,
        }
    }
}

impl Chord {
    /// Creates an empty chord state.
    pub fn new() -> (c: Chord)
        ensures
            c@ == init_model(),
    {
        let c = Chord {
            third: None,
            fifth: None,
            seventh: None,
            ninth: false,
            eleventh: false,
            triad: None,
            sus: Vec::new(),
            add: Vec::new(),
            lead: None,
        };
        proof {
            assert(c@ =~= init_model());
        }
        c
    }

    /// Classifies an interval token at the third stage.  A true third is
    /// recorded (a major third demoting a previously recorded minor third
    /// into `add`) and drains any pending suspensions into `add`; a
    /// suspension candidate is parked in `sus` while no third is set, and
    /// appended to `add` afterwards.  Any other token is rejected without
    /// mutation.
    pub fn handle_third(&mut self, interval: Interval) -> (r: Result<(), &'static str>)
        ensures
            final(self)@ == third_step(old(self)@, interval),
            r is Ok <==> third_accepts(interval),
            r matches Err(msg) ==> msg@ == "Invalid interval"@,
            !third_accepts(interval) ==> *final(self) == *old(self),
    {
        match interval {
            Interval::Min3 => {
                self.third = Some(Third::Minor);
                if !self.sus.is_empty() {
                    self.add.append(&mut self.sus);
                }
            },
            Interval::Maj3 => {
                if let Some(Third::Minor) = self.third {
                    self.add.push(Interval::Min3);
                }
                self.third = Some(Third::Major);
                if !self.sus.is_empty() {
                    self.add.append(&mut self.sus);
                }
            },
            Interval::Min2 | Interval::Maj2 | Interval::Perf4 => {
                if self.third.is_none() {
                    self.sus.push(interval)
                } else {
                    self.add.push(interval)
                }
            },
            _ => {
                return Err("Invalid interval");
            },
        }

        proof {
            assert(self@ =~= third_step(old(self)@, interval));
        }
        Ok(())
    }

    /// Classifies an interval token at the fifth stage.  Diminished-fifth
    /// spellings park in `sus` while no third is set, form a diminished
    /// triad over a minor third, and are mere color tones over a major
    /// third.  A perfect fifth always fixes the fifth and reconciles the
    /// triad with the recorded third; on a diminished triad this upgrades
    /// the triad to minor and demotes the diminished fifth into `add`.
    /// Augmented-fifth spellings fix an augmented fifth while the fifth is
    /// unset — disallowed over a minor third — and are added sixths once a
    /// fifth is fixed.  Any other token is rejected without mutation.
    pub fn handle_fifth(&mut self, interval: Interval) -> (r: Result<(), &'static str>)
        ensures
            final(self)@ == fifth_step(old(self)@, interval),
            r is Ok <==> fifth_accepts(interval) && !fifth_inversion(old(self)@, interval),
            !fifth_accepts(interval) ==> (r matches Err(msg) && msg@ == "Invalid interval"@),
            fifth_inversion(old(self)@, interval) ==> (r matches Err(msg) && msg@
                == "Invalid inversion"@),
            r is Err ==> *final(self) == *old(self),
    {
        match interval {
            Interval::Aug4 | Interval::Dim5 => {
                match &self.third {
                    None => self.sus.push(interval),
                    Some(third) => {
                        match third {
                            Third::Minor => {
                                self.fifth = Some(Fifth::Diminished);
                                self.triad = Some(Triad::Diminished)
                            },
                            Third::Major => self.add.push(interval),
                        }
                    },
                }
            },
            Interval::Perf5 => {
                self.fifth = Some(Fifth::Perfect);
                match &self.third {
                    None => (),
                    Some(third) => {
                        match third {
                            Third::Minor => {
                                if let Some(Triad::Diminished) = self.triad {
                                    self.add.push(Interval::Dim5);
                                }
                                self.triad = Some(Triad::Minor);
                            },
                            Third::Major => self.triad = Some(Triad::Major),
                        }
                    },
                }
            },
            Interval::Aug5 | Interval::Min6 => {
                match self.fifth {
                    None => {
                        if let Some(third) = &self.third {
                            match third {
                                Third::Major => self.triad = Some(Triad::Augmented),
                                Third::Minor => {
                                    return Err("Invalid inversion");
                                },
                            }
                        }
                        self.fifth = Some(Fifth::Augmented);
                    },
                    Some(_) => self.add.push(Interval::Min6),
                }
            },
            _ => {
                return Err("Invalid interval");
            },
        }

        proof {
            assert(self@ =~= fifth_step(old(self)@, interval));
        }
        Ok(())
    }

    /// Classifies an interval token at the sixth stage.  A major sixth on
    /// a diminished triad is reinterpreted as the diminished seventh of a
    /// fully diminished seventh chord, recording the implied leading-tone
    /// interval; on any other state it is a plain added sixth.  Any other
    /// token is rejected without mutation.
    pub fn handle_sixth(&mut self, interval: Interval) -> (r: Result<(), &'static str>)
        ensures
            final(self)@ == sixth_step(old(self)@, interval),
            r is Ok <==> sixth_accepts(interval),
            r matches Err(msg) ==> msg@ == "Invalid interval"@,
            !sixth_accepts(interval) ==> *final(self) == *old(self),
    {
        match interval {
            Interval::Maj6 => {
                if let Some(Triad::Diminished) = &self.triad {
                    self.seventh = Some(Seventh::Diminished);
                    self.lead = Some(Interval::Dim7);
                } else {
                    self.add.push(Interval::Maj6);
                }
            },
            _ => {
                return Err("Invalid interval");
            },
        }

        proof {
            assert(self@ =~= sixth_step(old(self)@, interval));
        }
        Ok(())
    }
}

/// Law: a freshly created chord state is well formed, and every
/// classifier step preserves well-formedness.
pub proof fn lemma_steps_preserve_wf(m: ChordModel, i: Interval)
    ensures
        init_model().wf(),
        m.wf() ==> third_step(m, i).wf(),
        m.wf() ==> fifth_step(m, i).wf(),
        m.wf() ==> sixth_step(m, i).wf(),
{
}

/// Law: the chord state is a monotone accumulator.  No step of any
/// classifier removes an entry from `add`, resets a derived triad to
/// empty, or overwrites a recorded seventh or leading tone.
pub proof fn lemma_accumulator_monotone(m: ChordModel, i: Interval)
    requires
        m.wf(),
    ensures
        m.add.is_prefix_of(third_step(m, i).add),
        m.add.is_prefix_of(fifth_step(m, i).add),
        m.add.is_prefix_of(sixth_step(m, i).add),
        m.triad is Some ==> third_step(m, i).triad is Some,
        m.triad is Some ==> fifth_step(m, i).triad is Some,
        m.triad is Some ==> sixth_step(m, i).triad is Some,
        m.seventh is Some ==> third_step(m, i).seventh == m.seventh,
        m.seventh is Some ==> fifth_step(m, i).seventh == m.seventh,
        m.seventh is Some ==> sixth_step(m, i).seventh == m.seventh,
        m.lead is Some ==> third_step(m, i).lead == m.lead,
        m.lead is Some ==> fifth_step(m, i).lead == m.lead,
        m.lead is Some ==> sixth_step(m, i).lead == m.lead,
{
}

/// Law: the reserved ninth and eleventh flags are never touched by any
/// classifier step.
pub proof fn lemma_reserved_flags_untouched(m: ChordModel, i: Interval)
    ensures
        third_step(m, i).ninth == m.ninth,
        third_step(m, i).eleventh == m.eleventh,
        fifth_step(m, i).ninth == m.ninth,
        fifth_step(m, i).eleventh == m.eleventh,
        sixth_step(m, i).ninth == m.ninth,
        sixth_step(m, i).eleventh == m.eleventh,
{
}

/// Ordering law: the moment a true third arrives, every pending
/// suspension resolves, in arrival order, into an addition, and `sus` is
/// empty from then on.
pub proof fn lemma_true_third_resolves_sus(m: ChordModel, i: Interval)
    requires
        i == Interval::Min3 || i == Interval::Maj3,
    ensures
        third_step(m, i).third is Some,
        third_step(m, i).sus == Seq::<Interval>::empty(),
        i == Interval::Min3 ==> third_step(m, i).add == m.add + m.sus,
        i == Interval::Maj3 && m.third != Some(Third::Minor) ==> third_step(m, i).add == m.add
            + m.sus,
{
}

/// Demotion law: a major third arriving over a recorded minor third
/// overwrites the third and preserves the superseded minor third only as
/// an addition, ahead of any resolved suspensions.
pub proof fn lemma_minor_third_demoted(m: ChordModel)
    requires
        m.third == Some(Third::Minor),
    ensures
        third_step(m, Interval::Maj3).third == Some(Third::Major),
        third_step(m, Interval::Maj3).add == m.add.push(Interval::Min3) + m.sus,
{
}

/// Triad upgrade law: over a minor third, a diminished fifth forms a
/// diminished triad, and a perfect fifth arriving afterwards upgrades the
/// triad to minor, fixes a perfect fifth, and demotes the diminished
/// fifth into an addition.
pub proof fn lemma_diminished_triad_upgrade(m: ChordModel)
    requires
        m.third == Some(Third::Minor),
    ensures
        fifth_step(m, Interval::Dim5).fifth == Some(Fifth::Diminished),
        fifth_step(m, Interval::Dim5).triad == Some(Triad::Diminished),
        fifth_step(fifth_step(m, Interval::Dim5), Interval::Perf5).fifth == Some(Fifth::Perfect),
        fifth_step(fifth_step(m, Interval::Dim5), Interval::Perf5).triad == Some(Triad::Minor),
        fifth_step(fifth_step(m, Interval::Dim5), Interval::Perf5).add == m.add.push(
            Interval::Dim5,
        ),
        fifth_step(fifth_step(m, Interval::Dim5), Interval::Perf5).sus == m.sus,
{
}

/// Rejection law: a token outside a classifier's domain, and the
/// disallowed inversion at the fifth stage, leave the model exactly as it
/// was.
pub proof fn lemma_rejection_no_mutation(m: ChordModel, i: Interval)
    ensures
        !third_accepts(i) ==> third_step(m, i) == m,
        !fifth_accepts(i) || fifth_inversion(m, i) ==> fifth_step(m, i) == m,
        !sixth_accepts(i) ==> sixth_step(m, i) == m,
{
}

} // verus!
