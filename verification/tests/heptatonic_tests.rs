use no_surprises::c4;
use no_surprises::c5;
use no_surprises::g4;
use no_surprises::a4;
use no_surprises::aflat4;
use no_surprises::b4;
use no_surprises::bflat4;
use no_surprises::d4;
use no_surprises::e4;
use no_surprises::eflat4;
use no_surprises::f4;
use no_surprises::half;
use no_surprises::whole;
use no_surprises::major_second;
use no_surprises::major_seventh;
use no_surprises::major_sixth;
use no_surprises::major_third;
use no_surprises::minor_seventh;
use no_surprises::minor_sixth;
use no_surprises::minor_third;
use no_surprises::perfect_fifth;
use no_surprises::perfect_fourth;
use no_surprises::perfect_octave;
use no_surprises::major_scale;
use no_surprises::major_scale_in_intervals;
use no_surprises::major_scale_in_pitches;
use no_surprises::major_scale_in_steps;
use no_surprises::major_scale_steps;
use no_surprises::naturalminor_scale;
use no_surprises::naturalminor_scale_in_intervals;
use no_surprises::naturalminor_scale_in_pitches;
use no_surprises::naturalminor_scale_in_steps;
use no_surprises::naturalminor_scale_steps;

#[test]
fn test_major_scale_steps() {
    assert_eq!(
        major_scale_steps(),
        vec![
            whole(),
            whole(),
            half(),
            whole(),
            whole(),
            whole(),
            half()
        ]
    );
}

#[test]
fn test_major_scale_in_steps() {
    let scale = major_scale_in_steps();
    assert_eq!(
        scale.steps(),
        &vec![
            whole(),
            whole(),
            half(),
            whole(),
            whole(),
            whole(),
            half()
        ]
    );
}

#[test]
fn test_major_scale_in_intervals() {
    let scale = major_scale_in_intervals();
    assert_eq!(
        scale.intervals(),
        &vec![
            major_second(),
            major_third(),
            perfect_fourth(),
            perfect_fifth(),
            major_sixth(),
            major_seventh(),
            perfect_octave()
        ]
    );
}

#[test]
fn test_major_scale_in_pitches() {
    let scale = major_scale_in_pitches(c4());
    assert_eq!(
        scale.pitches(),
        &vec![c4(), d4(), e4(), f4(), g4(), a4(), b4(), c5()]
    );
}

#[test]
fn test_major_scale() {
    let scale = major_scale(c4());
    assert_eq!(
        scale.pitches(),
        &vec![c4(), d4(), e4(), f4(), g4(), a4(), b4(), c5()]
    );
}

#[test]
fn test_major_conversions() {
    // Pitches -> intervals -> pitches reproduces the scale.
    let scale = major_scale(c4());
    let scale1 = scale.to_intervals();
    let scale2 = scale1.to_pitches(c4());
    assert_eq!(scale, scale2);

    // Pitches -> steps -> intervals -> pitches reproduces the scale.
    let scale = major_scale(c4());
    let scale1 = scale.to_steps();
    let scale2 = scale1.to_intervals();
    let scale3 = scale2.to_pitches(c4());
    assert_eq!(scale, scale3);
}

#[test]
fn test_major_scale_pattern_independence() {
    let c_scale = major_scale(c4());
    let g_scale = major_scale(g4());

    // The intervals between scale degrees are the same.
    let c_intervals = c_scale.to_intervals();
    let g_intervals = g_scale.to_intervals();
    assert_eq!(c_intervals.intervals(), g_intervals.intervals());

    // The steps are the same.
    let c_steps = c_scale.to_steps();
    let g_steps = g_scale.to_steps();
    assert_eq!(c_steps.steps(), g_steps.steps());
}

#[test]
fn test_natural_minor_scale_steps() {
    assert_eq!(
        naturalminor_scale_steps(),
        vec![
            whole(),
            half(),
            whole(),
            whole(),
            half(),
            whole(),
            whole()
        ]
    );
}

#[test]
fn test_natural_minor_scale_in_steps() {
    let scale = naturalminor_scale_in_steps();
    assert_eq!(
        scale.steps(),
        &vec![
            whole(),
            half(),
            whole(),
            whole(),
            half(),
            whole(),
            whole()
        ]
    );
}

#[test]
fn test_natural_minor_scale_in_intervals() {
    let scale = naturalminor_scale_in_intervals();
    assert_eq!(
        scale.intervals(),
        &vec![
            major_second(),
            minor_third(),
            perfect_fourth(),
            perfect_fifth(),
            minor_sixth(),
            minor_seventh(),
            perfect_octave()
        ]
    );
}

#[test]
fn test_natural_minor_scale_in_pitches() {
    let scale = naturalminor_scale_in_pitches(c4());
    assert_eq!(
        scale.pitches(),
        &vec![c4(), d4(), eflat4(), f4(), g4(), aflat4(), bflat4(), c5()]
    );
}

#[test]
fn test_natural_minor_scale() {
    let scale = naturalminor_scale(c4());
    assert_eq!(
        scale.pitches(),
        &vec![c4(), d4(), eflat4(), f4(), g4(), aflat4(), bflat4(), c5()]
    );
}

#[test]
fn test_natural_minor_conversions() {
    // Pitches -> intervals -> pitches reproduces the scale.
    let scale = naturalminor_scale(c4());
    let scale1 = scale.to_intervals();
    let scale2 = scale1.to_pitches(c4());
    assert_eq!(scale, scale2);

    // Pitches -> steps -> intervals -> pitches reproduces the scale.
    let scale = naturalminor_scale(c4());
    let scale1 = scale.to_steps();
    let scale2 = scale1.to_intervals();
    let scale3 = scale2.to_pitches(c4());
    assert_eq!(scale, scale3);
}

#[test]
fn test_natural_minor_scale_pattern_independence() {
    let c_scale = naturalminor_scale(c4());
    let g_scale = naturalminor_scale(g4());

    // The intervals between scale degrees are the same.
    let c_intervals = c_scale.to_intervals();
    let g_intervals = g_scale.to_intervals();
    assert_eq!(c_intervals.intervals(), g_intervals.intervals());

    // The steps are the same.
    let c_steps = c_scale.to_steps();
    let g_steps = g_scale.to_steps();
    assert_eq!(c_steps.steps(), g_steps.steps());
}
