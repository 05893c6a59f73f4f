use no_surprises::Scale;
use no_surprises::ScaleInIntervals;
use no_surprises::ScaleInPitches;
use no_surprises::ScaleInSteps;
use no_surprises::c4;
use no_surprises::d4;
use no_surprises::dsharp4;
use no_surprises::e4;
use no_surprises::half;
use no_surprises::whole;
use no_surprises::major_second;
use no_surprises::major_third;
use no_surprises::minor_third;

/// A test scale quality for testing scale operations.
struct TestScaleQuality;

#[test]
fn test_steps_accessor() {
    let steps = vec![whole(), half(), half()];
    let scale = ScaleInSteps::<TestScaleQuality>::new(steps.clone());

    // The steps are accessible.
    assert_eq!(scale.steps(), &steps);

    // The steps are the same as the items.
    assert_eq!(scale.steps(), scale.items());
}

#[test]
fn test_scale_in_steps_into_scale_in_intervals() {
    let steps = vec![whole(), half(), half()];
    let scale_in_steps = ScaleInSteps::<TestScaleQuality>::new(steps);
    let scale_in_intervals = scale_in_steps.into_scale_in_intervals();

    assert_eq!(
        scale_in_intervals.items(),
        &vec![major_second(), minor_third(), major_third()]
    );
}

#[test]
fn test_scale_in_steps_into_scale_in_pitches() {
    let steps = vec![whole(), half(), half()];
    let scale_in_steps = ScaleInSteps::<TestScaleQuality>::new(steps);
    let scale_in_pitches = scale_in_steps.into_scale_in_pitches(c4());

    assert_eq!(scale_in_pitches.items(), &vec![c4(), d4(), dsharp4(), e4()]);
}

#[test]
fn test_intervals_accessor() {
    let intervals = vec![major_second(), minor_third(), major_third()];
    let scale = ScaleInIntervals::<TestScaleQuality>::new(intervals.clone());

    // The intervals are accessible.
    assert_eq!(scale.intervals(), &intervals);

    // The intervals are the same as the items.
    assert_eq!(scale.intervals(), scale.items());
}

#[test]
fn test_scale_in_intervals_into_scale_in_steps() {
    let intervals = vec![major_second(), minor_third(), major_third()];
    let scale_in_intervals = ScaleInIntervals::<TestScaleQuality>::new(intervals);
    let scale_in_steps = scale_in_intervals.into_scale_in_steps();

    assert_eq!(scale_in_steps.items(), &vec![whole(), half(), half()]);
}

#[test]
fn test_scale_in_intervals_into_scale_in_pitches() {
    let intervals = vec![major_second(), minor_third(), major_third()];
    let scale_in_intervals = ScaleInIntervals::<TestScaleQuality>::new(intervals);
    let scale_in_pitches = scale_in_intervals.into_scale_in_pitches(c4());

    assert_eq!(scale_in_pitches.items(), &vec![c4(), d4(), dsharp4(), e4()]);
}

#[test]
fn test_pitches_accessor() {
    let pitches = vec![c4(), d4(), dsharp4(), e4()];
    let scale = ScaleInPitches::<TestScaleQuality>::new(pitches.clone());

    // The pitches are accessible.
    assert_eq!(scale.pitches(), &pitches);

    // The pitches are the same as the items.
    assert_eq!(scale.pitches(), scale.items());
}

#[test]
fn test_scale_in_pitches_to_scale_in_intervals() {
    let pitches = vec![c4(), d4(), dsharp4(), e4()];
    let scale_in_pitches = ScaleInPitches::<TestScaleQuality>::new(pitches);
    let scale_in_intervals = scale_in_pitches.to_scale_in_intervals();

    assert_eq!(
        scale_in_intervals.items(),
        &vec![major_second(), minor_third(), major_third()]
    );
}

#[test]
fn test_scale_in_pitches_to_scale_in_steps() {
    let pitches = vec![c4(), d4(), dsharp4(), e4()];
    let scale_in_pitches = ScaleInPitches::<TestScaleQuality>::new(pitches);
    let scale_in_steps = scale_in_pitches.to_scale_in_steps();

    assert_eq!(scale_in_steps.items(), &vec![whole(), half(), half()]);
}

#[test]
fn test_scale_generic_items() {
    let steps = vec![whole(), whole()];
    let scale: Scale<TestScaleQuality, no_surprises::Step> = Scale::new(steps.clone());
    assert_eq!(scale.items(), &steps);
}
