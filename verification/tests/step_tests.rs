use no_surprises::Interval;
use no_surprises::IntoIntervals;
use no_surprises::IntoPitches;
use no_surprises::Pitch;
use no_surprises::Step;
use no_surprises::half;
use no_surprises::semitone;
use no_surprises::tone;
use no_surprises::unison;
use no_surprises::whole;
use no_surprises::whole_and_half;

#[test]
fn test_step_creation() {
    let step = Step::new(2);
    assert_eq!(step.semitones(), 2);
}

#[test]
fn test_step_default() {
    let step = Step::default();
    assert_eq!(step.semitones(), 0);
}

#[test]
fn test_step_from_interval() {
    let interval = Interval::new(3);
    let step = Step::from(interval);
    assert_eq!(step.semitones(), 3);
}

#[test]
fn test_step_comparison() {
    let step1 = Step::new(2);
    let step2 = Step::new(3);
    assert!(step1 < step2);
    assert!(step2 > step1);
    assert_eq!(step1, Step::new(2));
}

#[test]
fn step_test_into_intervals() {
    let steps = vec![Step::new(2), Step::new(3), Step::new(4)];
    let intervals = steps.into_intervals();
    assert_eq!(
        intervals,
        vec![Interval::new(2), Interval::new(5), Interval::new(9)]
    );
}

#[test]
fn step_test_into_pitches() {
    let steps = vec![Step::new(2), Step::new(3), Step::new(4)];
    let pitches = steps.into_pitches(Pitch::new(60));
    assert_eq!(
        pitches,
        vec![
            Pitch::new(60),
            Pitch::new(62),
            Pitch::new(65),
            Pitch::new(69)
        ]
    );
}

#[test]
fn step_test_constants() {
    assert_eq!(unison().semitones(), 0);
    assert_eq!(half().semitones(), 1);
    assert_eq!(whole().semitones(), 2);
    assert_eq!(whole_and_half().semitones(), 3);
    assert_eq!(semitone().semitones(), 1);
    assert_eq!(tone().semitones(), 2);
}

#[test]
fn test_empty_steps() {
    let steps: Vec<Step> = vec![];
    let intervals = steps.into_intervals();
    assert_eq!(intervals.len(), 0);
}

#[test]
fn test_single_step() {
    let steps = vec![Step::new(2)];
    let intervals = steps.into_intervals();
    assert_eq!(intervals, vec![Interval::new(2)]);

    let pitches = steps.into_pitches(Pitch::new(60));
    assert_eq!(pitches, vec![Pitch::new(60), Pitch::new(62)]);
}
