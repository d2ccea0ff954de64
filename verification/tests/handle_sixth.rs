use chords::chord::Chord;
use chords::interval::Interval;
use chords::{Fifth, Seventh, Third, Triad};

#[test]
fn sixth_invalid_interval() {
    let mut a = Chord::new();
    assert_eq!(a.handle_sixth(Interval::Unison), Err("Invalid interval"));
}

#[test]
fn dim_triad() {
    let mut a = Chord::new();
    let _ = a.handle_third(Interval::Min3);
    let _ = a.handle_fifth(Interval::Dim5);
    let _ = a.handle_sixth(Interval::Maj6);

    let mut b = Chord::new();
    b.third = Some(Third::Minor);
    b.fifth = Some(Fifth::Diminished);
    b.triad = Some(Triad::Diminished);
    b.seventh = Some(Seventh::Diminished);
    b.lead = Some(Interval::Dim7);

    assert_eq!(a, b);
}

#[test]
fn min_triad() {
    let mut a = Chord::new();
    let _ = a.handle_third(Interval::Min3);
    let _ = a.handle_fifth(Interval::Perf5);
    let _ = a.handle_sixth(Interval::Maj6);

    let mut b = Chord::new();
    b.third = Some(Third::Minor);
    b.fifth = Some(Fifth::Perfect);
    b.triad = Some(Triad::Minor);
    b.add.push(Interval::Maj6);

    assert_eq!(a, b);
}

#[test]
fn maj_triad() {
    let mut a = Chord::new();
    let _ = a.handle_third(Interval::Maj3);
    let _ = a.handle_fifth(Interval::Perf5);
    let _ = a.handle_sixth(Interval::Maj6);

    let mut b = Chord::new();
    b.third = Some(Third::Major);
    b.fifth = Some(Fifth::Perfect);
    b.triad = Some(Triad::Major);
    b.add.push(Interval::Maj6);

    assert_eq!(a, b);
}

#[test]
fn aug_triad() {
    let mut a = Chord::new();
    let _ = a.handle_third(Interval::Maj3);
    let _ = a.handle_fifth(Interval::Aug5);
    let _ = a.handle_sixth(Interval::Maj6);

    let mut b = Chord::new();
    b.third = Some(Third::Major);
    b.fifth = Some(Fifth::Augmented);
    b.triad = Some(Triad::Augmented);
    b.add.push(Interval::Maj6);

    assert_eq!(a, b);
}

#[test]
fn no_triad() {
    let mut a = Chord::new();
    let _ = a.handle_third(Interval::Maj2);
    let _ = a.handle_fifth(Interval::Perf5);
    let _ = a.handle_sixth(Interval::Maj6);

    let mut b = Chord::new();
    b.sus.push(Interval::Maj2);
    b.fifth = Some(Fifth::Perfect);
    b.add.push(Interval::Maj6);

    assert_eq!(a, b);
}
