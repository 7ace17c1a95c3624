use polysynth::waveform::{LfoShape, Waveform};

const WAVEFORMS: [Waveform; 6] = [
    Waveform::Sine,
    Waveform::Saw,
    Waveform::Square,
    Waveform::Triangle,
    Waveform::Noise,
    Waveform::Wavetable,
];

#[test]
fn selectors_name_the_waveforms_in_order() {
    assert_eq!(Waveform::from_index(0), Waveform::Sine);
    assert_eq!(Waveform::from_index(1), Waveform::Saw);
    assert_eq!(Waveform::from_index(2), Waveform::Square);
    assert_eq!(Waveform::from_index(3), Waveform::Triangle);
    assert_eq!(Waveform::from_index(4), Waveform::Noise);
    assert_eq!(Waveform::from_index(5), Waveform::Wavetable);
}

#[test]
fn selectors_out_of_range_mean_sine() {
    assert_eq!(Waveform::from_index(6), Waveform::Sine);
    assert_eq!(Waveform::from_index(-1), Waveform::Sine);
    assert_eq!(Waveform::from_index(i32::MAX), Waveform::Sine);
    assert_eq!(Waveform::from_index(i32::MIN), Waveform::Sine);
}

#[test]
fn waveform_indices_count_from_zero() {
    let indices: Vec<u8> = WAVEFORMS.iter().map(|w| w.to_index()).collect();
    assert_eq!(indices, vec![0, 1, 2, 3, 4, 5]);
}

#[test]
fn waveform_survives_the_round_trip_through_its_index() {
    for w in WAVEFORMS {
        assert_eq!(Waveform::from_index(w.to_index() as i32), w);
    }
}

#[test]
fn rounded_host_values_select_waveforms() {
    assert_eq!(Waveform::from_index(2.4f32.round() as i32), Waveform::Square);
    assert_eq!(Waveform::from_index(2.5f32.round() as i32), Waveform::Triangle);
    assert_eq!(Waveform::from_index((-0.4f32).round() as i32), Waveform::Sine);
    assert_eq!(Waveform::from_index(f32::NAN.round() as i32), Waveform::Sine);
    assert_eq!(Waveform::from_index(1e20f32.round() as i32), Waveform::Sine);
}

#[test]
fn oscillators_default_to_saw() {
    assert_eq!(Waveform::default(), Waveform::Saw);
}

#[test]
fn lfo_selectors() {
    assert_eq!(LfoShape::from_selector(0), LfoShape::Sine);
    assert_eq!(LfoShape::from_selector(1), LfoShape::Triangle);
    assert_eq!(LfoShape::from_selector(2), LfoShape::Square);
    assert_eq!(LfoShape::from_selector(3), LfoShape::Saw);
    assert_eq!(LfoShape::from_selector(4), LfoShape::Sine);
    assert_eq!(LfoShape::from_selector(255), LfoShape::Sine);
}
