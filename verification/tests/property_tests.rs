use no_surprises::Interval;
use no_surprises::IntoIntervals;
use no_surprises::IntoPitches;
use no_surprises::IntoSteps;
use no_surprises::MajorQuality;
use no_surprises::NaturalMinorQuality;
use no_surprises::Pitch;
use no_surprises::ScaleQuality;
use no_surprises::Step;
use no_surprises::ValidateScaleIntervals;
use no_surprises::ValidateScaleLength;
use no_surprises::ValidateScalePitches;
use no_surprises::ValidateScaleSteps;
use no_surprises::major_scale;

fn steps(counts: &[u8]) -> Vec<Step> {
    counts.iter().map(|&c| Step::new(c)).collect()
}

fn intervals(counts: &[u8]) -> Vec<Interval> {
    counts.iter().map(|&c| Interval::new(c)).collect()
}

fn pitches(counts: &[u8]) -> Vec<Pitch> {
    counts.iter().map(|&c| Pitch::new(c)).collect()
}

#[test]
fn scenario_steps_to_intervals_to_pitches() {
    let s = steps(&[2, 2, 1]);
    let v = s.into_intervals();
    assert_eq!(v, intervals(&[2, 4, 5]));
    let p = v.into_pitches(Pitch::new(60));
    assert_eq!(p, pitches(&[60, 62, 64, 65]));
}

#[test]
fn scenario_pitches_to_intervals_and_steps() {
    let p = pitches(&[60, 62, 65, 69]);
    assert_eq!(p.into_intervals(), intervals(&[2, 5, 9]));
    assert_eq!(p.into_steps(), steps(&[2, 3, 4]));
}

#[test]
fn round_trip_steps_through_intervals() {
    let s = steps(&[2, 2, 1, 2, 2, 2, 1]);
    assert_eq!(s.into_intervals().into_steps(), s);
}

#[test]
fn round_trip_intervals_through_steps() {
    let v = intervals(&[2, 4, 5, 7, 9, 11, 12]);
    assert_eq!(v.into_steps().into_intervals(), v);
}

#[test]
fn round_trip_pitches_through_intervals() {
    let p = pitches(&[60, 62, 64, 65, 67, 69, 71, 72]);
    assert_eq!(p.into_intervals().into_pitches(Pitch::new(60)), p);
}

#[test]
fn round_trip_pitches_through_steps() {
    let p = pitches(&[60, 62, 63, 65, 67, 68, 70, 72]);
    assert_eq!(p.into_steps().into_pitches(Pitch::new(60)), p);
}

#[test]
fn round_trip_repeated_pitches() {
    // Unison steps are reproduced too: equal adjacent pitches survive a
    // round trip through steps.
    let p = pitches(&[60, 60, 62, 62]);
    assert_eq!(p.into_steps(), steps(&[0, 2, 0]));
    assert_eq!(p.into_steps().into_pitches(Pitch::new(60)), p);
}

#[test]
fn conversion_lengths() {
    for n in 0..8u8 {
        let s = steps(&vec![1; n as usize]);
        assert_eq!(s.into_intervals().len(), n as usize);
        assert_eq!(s.into_pitches(Pitch::new(10)).len(), n as usize + 1);

        let v = intervals(&(0..n).collect::<Vec<u8>>());
        assert_eq!(v.into_steps().len(), n as usize);
        assert_eq!(v.into_pitches(Pitch::new(10)).len(), n as usize + 1);

        let p = pitches(&(0..n).collect::<Vec<u8>>());
        let expected = if n == 0 { 0 } else { n as usize - 1 };
        assert_eq!(p.into_intervals().len(), expected);
        assert_eq!(p.into_steps().len(), expected);
    }
}

#[test]
fn arithmetic_identities() {
    // (p + s) - p == s for a spread of values.
    for &(p, s) in &[(0u8, 0u8), (60, 2), (127, 12), (200, 55)] {
        let pitch = Pitch::new(p);
        let step = Step::new(s);
        assert_eq!((pitch + step) - pitch, step);
    }

    // (i + s) - s == i for a spread of values.
    for &(i, s) in &[(0u8, 0u8), (5, 7), (12, 12), (100, 155)] {
        let interval = Interval::new(i);
        let step = Step::new(s);
        assert_eq!((interval + step) - step, interval);
    }
}

#[test]
fn octave_independence_offset() {
    // The same family from two roots gives pitches that differ by the
    // constant offset of the roots.
    let c_scale = major_scale(Pitch::new(60));
    let g_scale = major_scale(Pitch::new(67));
    for (c, g) in c_scale.pitches().iter().zip(g_scale.pitches().iter()) {
        assert_eq!(g.semitones() - c.semitones(), 7);
    }
}

#[test]
fn quality_lengths() {
    assert_eq!(MajorQuality::steps_length(), 7);
    assert_eq!(MajorQuality::pitches_length(), 8);
    assert_eq!(NaturalMinorQuality::steps_length(), 7);
    assert_eq!(NaturalMinorQuality::pitches_length(), 8);
}

#[test]
fn quality_validate_pattern() {
    assert!(MajorQuality::validate_pattern(&MajorQuality::pattern()));
    assert!(!MajorQuality::validate_pattern(&steps(&[2, 2, 1])));
    assert!(NaturalMinorQuality::validate_pattern(
        &NaturalMinorQuality::pattern()
    ));
}

#[test]
fn validate_steps_rejects_unison() {
    assert!(MajorQuality::validate_steps(&steps(&[2, 1, 2])));
    assert!(MajorQuality::validate_steps(&steps(&[])));
    assert!(!MajorQuality::validate_steps(&steps(&[2, 0, 2])));
}

#[test]
fn validate_intervals_rejects_descent() {
    assert!(MajorQuality::validate_intervals(&intervals(&[2, 4, 5])));
    assert!(MajorQuality::validate_intervals(&intervals(&[])));
    assert!(MajorQuality::validate_intervals(&intervals(&[3, 3, 4])));
    assert!(!MajorQuality::validate_intervals(&intervals(&[2, 5, 4])));
}

#[test]
fn validate_pitches_checks_length_and_order() {
    assert!(MajorQuality::validate_pitches(&pitches(&[60, 62, 64]), 3));
    assert!(!MajorQuality::validate_pitches(&pitches(&[60, 62, 64]), 4));
    assert!(!MajorQuality::validate_pitches(&pitches(&[60, 64, 62]), 3));
    assert!(MajorQuality::validate_pitches(&pitches(&[]), 0));
}

#[test]
fn validate_length_bounds() {
    assert!(MajorQuality::validate_length(7));
    assert!(!MajorQuality::validate_length(6));
    assert!(!MajorQuality::validate_length(8));
    assert_eq!(MajorQuality::min_length(), 7);
    assert_eq!(MajorQuality::max_length(), 7);
}
