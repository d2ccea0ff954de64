use chords::chord::Chord;
use chords::interval::Interval;
use chords::Third;

#[test]
fn invalid_interval() {
    let mut a = Chord::new();
    assert_eq!(a.handle_third(Interval::Aug4), Err("Invalid interval"));
}

#[test]
fn min2() {
    let mut a = Chord::new();
    let _ = a.handle_third(Interval::Min2);

    let mut b = Chord::new();
    b.sus.push(Interval::Min2);

    assert_eq!(a, b);
}

#[test]
fn maj2() {
    let mut a = Chord::new();
    let _ = a.handle_third(Interval::Maj2);

    let mut b = Chord::new();
    b.sus.push(Interval::Maj2);

    assert_eq!(a, b);
}

#[test]
fn min3() {
    let mut a = Chord::new();
    let _ = a.handle_third(Interval::Min3);

    let mut b = Chord::new();
    b.third = Some(Third::Minor);

    assert_eq!(a, b);
}

#[test]
fn maj3() {
    let mut a = Chord::new();
    let _ = a.handle_third(Interval::Maj3);

    let mut b = Chord::new();
    b.third = Some(Third::Major);

    assert_eq!(a, b);
}

#[test]
fn perf4() {
    let mut a = Chord::new();
    let _ = a.handle_third(Interval::Perf4);

    let mut b = Chord::new();
    b.sus.push(Interval::Perf4);

    assert_eq!(a, b);
}

#[test]
fn multiple_sus() {
    let mut a = Chord::new();
    let _ = a.handle_third(Interval::Min2);
    let _ = a.handle_third(Interval::Maj2);
    let _ = a.handle_third(Interval::Perf4);

    let mut b = Chord::new();
    b.sus.push(Interval::Min2);
    b.sus.push(Interval::Maj2);
    b.sus.push(Interval::Perf4);

    assert_eq!(a, b);
}

#[test]
fn sus_min3() {
    let mut a = Chord::new();
    let _ = a.handle_third(Interval::Maj2);
    let _ = a.handle_third(Interval::Min3);

    let mut b = Chord::new();
    b.third = Some(Third::Minor);
    b.add.push(Interval::Maj2);

    assert_eq!(a, b);
}

#[test]
fn sus_maj3() {
    let mut a = Chord::new();
    let _ = a.handle_third(Interval::Maj2);
    let _ = a.handle_third(Interval::Maj3);

    let mut b = Chord::new();
    b.third = Some(Third::Major);
    b.add.push(Interval::Maj2);

    assert_eq!(a, b);
}

#[test]
fn sus_min3_add() {
    let mut a = Chord::new();
    let _ = a.handle_third(Interval::Maj2);
    let _ = a.handle_third(Interval::Min3);
    let _ = a.handle_third(Interval::Perf4);

    let mut b = Chord::new();
    b.third = Some(Third::Minor);
    b.add.push(Interval::Maj2);
    b.add.push(Interval::Perf4);

    assert_eq!(a, b);
}

#[test]
fn sus_maj3_add() {
    let mut a = Chord::new();
    let _ = a.handle_third(Interval::Maj2);
    let _ = a.handle_third(Interval::Maj3);
    let _ = a.handle_third(Interval::Perf4);

    let mut b = Chord::new();
    b.third = Some(Third::Major);
    b.add.push(Interval::Maj2);
    b.add.push(Interval::Perf4);

    assert_eq!(a, b);
}

#[test]
fn sus_min3_maj3() {
    let mut a = Chord::new();
    let _ = a.handle_third(Interval::Maj2);
    let _ = a.handle_third(Interval::Min3);
    let _ = a.handle_third(Interval::Maj3);

    let mut b = Chord::new();
    b.third = Some(Third::Major);
    b.add.push(Interval::Maj2);
    b.add.push(Interval::Min3);

    assert_eq!(a, b);
}

#[test]
fn sus_min3_maj3_add() {
    let mut a = Chord::new();
    let _ = a.handle_third(Interval::Maj2);
    let _ = a.handle_third(Interval::Min3);
    let _ = a.handle_third(Interval::Maj3);
    let _ = a.handle_third(Interval::Perf4);

    let mut b = Chord::new();
    b.third = Some(Third::Major);
    b.add.push(Interval::Maj2);
    b.add.push(Interval::Min3);
    b.add.push(Interval::Perf4);

    assert_eq!(a, b);
}
