use polysynth::wavetable::{
    blend_at, Blend, OscTables, Wavetable, OSCILLATORS, SNAPSHOT_SIZE, WAVETABLE_SIZE,
};

fn mix(lower: f32, upper: f32, weight: usize) -> f32 {
    let frac = weight as f32 / WAVETABLE_SIZE as f32;
    lower * (1.0 - frac) + upper * frac
}

/// Linear resampling written out in floating point, for comparison.
fn resample_in_floats(source: &[f32]) -> Vec<f32> {
    let len = source.len();
    let mut out = vec![0.0f32; WAVETABLE_SIZE];
    for i in 0..WAVETABLE_SIZE {
        let x = (i as f32) / (WAVETABLE_SIZE as f32) * (len as f32);
        let i0 = x.floor() as usize % len;
        let i1 = (i0 + 1) % len;
        let frac = x - x.floor();
        out[i] = source[i0] * (1.0 - frac) + source[i1] * frac;
    }
    out
}

fn ramp(len: usize) -> Vec<f32> {
    (0..len).map(|k| (k as f32 * 0.37).sin()).collect()
}

fn sine_table() -> Wavetable<f32> {
    let samples: Vec<f32> = (0..WAVETABLE_SIZE)
        .map(|i| (2.0 * std::f32::consts::PI * (i as f32) / WAVETABLE_SIZE as f32).sin())
        .collect();
    Wavetable::from_samples(samples).unwrap()
}

#[test]
fn table_constants() {
    assert_eq!(WAVETABLE_SIZE, 2048);
    assert_eq!(SNAPSHOT_SIZE, 256);
    assert_eq!(OSCILLATORS, 2);
}

#[test]
fn first_blend_is_the_first_source_sample() {
    for len in [1usize, 2, 3, 256, 2048, 5000, usize::MAX] {
        let b = blend_at(0, len).unwrap();
        assert_eq!(b.lower, 0);
        assert_eq!(b.weight, 0);
        assert_eq!(b.upper, if len == 1 { 0 } else { 1 });
    }
}

#[test]
fn last_blend_lies_one_step_before_the_end() {
    assert_eq!(blend_at(2047, 4), Some(Blend { lower: 3, upper: 0, weight: 2044 }));
    assert_eq!(blend_at(2047, 1), Some(Blend { lower: 0, upper: 0, weight: 2047 }));
    assert_eq!(blend_at(2047, 2048), Some(Blend { lower: 2047, upper: 0, weight: 0 }));
    assert_eq!(blend_at(2047, 4096), Some(Blend { lower: 4094, upper: 4095, weight: 0 }));
    assert_eq!(blend_at(2047, 3000), Some(Blend { lower: 2998, upper: 2999, weight: 1096 }));
}

#[test]
fn blends_in_the_middle() {
    assert_eq!(blend_at(1024, 2), Some(Blend { lower: 1, upper: 0, weight: 0 }));
    assert_eq!(blend_at(512, 2), Some(Blend { lower: 0, upper: 1, weight: 1024 }));
    assert_eq!(blend_at(1, 3), Some(Blend { lower: 0, upper: 1, weight: 3 }));
    assert_eq!(blend_at(683, 3), Some(Blend { lower: 1, upper: 2, weight: 1 }));
    assert_eq!(blend_at(100, 256), Some(Blend { lower: 12, upper: 13, weight: 1024 }));
}

#[test]
fn there_is_no_blend_outside_the_table_or_from_nothing() {
    assert_eq!(blend_at(2048, 4), None);
    assert_eq!(blend_at(usize::MAX, 4), None);
    assert_eq!(blend_at(0, 0), None);
    assert_eq!(blend_at(2047, 0), None);
}

#[test]
fn blends_of_a_huge_source_do_not_overflow() {
    let b = blend_at(2047, usize::MAX).unwrap();
    let position = 2047u128 * (usize::MAX as u128);
    assert_eq!(b.lower as u128, position / 2048);
    assert_eq!(b.weight as u128, position % 2048);
    assert_eq!(b.upper, b.lower + 1);
}

#[test]
fn every_blend_reads_inside_its_source() {
    for len in [1usize, 2, 3, 7, 255, 256, 2047, 2048, 2049, 10000] {
        for i in 0..WAVETABLE_SIZE {
            let b = blend_at(i, len).unwrap();
            assert!(b.lower < len && b.upper < len && b.weight < WAVETABLE_SIZE);
            assert_eq!(b.lower * WAVETABLE_SIZE + b.weight, i * len);
            assert_eq!(b.upper, (b.lower + 1) % len);
        }
    }
}

#[test]
fn resampling_any_source_gives_a_full_table() {
    for len in [1usize, 2, 3, 100, 256, 2048, 5000] {
        let table = Wavetable::resample(&ramp(len), mix).unwrap();
        assert_eq!(table.to_vec().len(), WAVETABLE_SIZE);
    }
}

#[test]
fn resampling_nothing_gives_no_table() {
    assert!(Wavetable::resample(&Vec::<f32>::new(), mix).is_none());
}

#[test]
fn resampled_endpoints_are_the_interpolation_endpoints() {
    let source = vec![0.25f32, -0.5, 0.75, 1.0];
    let table = Wavetable::resample(&source, mix).unwrap().to_vec();
    assert_eq!(table[0], 0.25);
    let frac = 2044.0f32 / 2048.0;
    assert_eq!(table[2047], 1.0 * (1.0 - frac) + 0.25 * frac);
    assert_eq!(table[512], -0.5);
    assert_eq!(table[1024], 0.75);
    assert_eq!(table[256], 0.25 * 0.5 + -0.5 * 0.5);
}

#[test]
fn resampling_two_samples() {
    let table = Wavetable::resample(&vec![0.0f32, 1.0], mix).unwrap().to_vec();
    assert_eq!(table[0], 0.0);
    assert_eq!(table[512], 0.5);
    assert_eq!(table[1024], 1.0);
    assert_eq!(table[1536], 0.5);
    assert_eq!(table[2047], 2.0 / 2048.0);
}

#[test]
fn resampling_a_table_length_source_copies_it() {
    let source = ramp(WAVETABLE_SIZE);
    let table = Wavetable::resample(&source, mix).unwrap().to_vec();
    assert_eq!(table, source);
}

#[test]
fn resampling_agrees_with_floating_point_interpolation() {
    for len in [1usize, 2, 3, 5, 100, 256, 1000, 2048, 4096, 5000, 8191] {
        let source = ramp(len);
        let table = Wavetable::resample(&source, mix).unwrap().to_vec();
        assert_eq!(table, resample_in_floats(&source), "source length {}", len);
    }
}

#[test]
fn resample_hands_the_mix_both_neighbours_and_the_weight() {
    let source: Vec<(usize, usize, usize)> = (0..3).map(|k| (k, k, 0)).collect();
    let table = Wavetable::resample(&source, |lo: (usize, usize, usize), hi, w| (lo.0, hi.0, w))
        .unwrap()
        .to_vec();
    // The first entry falls on a source slot and is taken as it is.
    assert_eq!(table[0], (0, 0, 0));
    assert_eq!(table[1], (0, 1, 3));
    assert_eq!(table[683], (1, 2, 1));
    assert_eq!(table[2047], (2, 0, 2045));
}

#[test]
fn from_samples_takes_only_full_tables() {
    assert!(Wavetable::from_samples(vec![0.0f32; 2048]).is_some());
    assert!(Wavetable::from_samples(vec![0.0f32; 2047]).is_none());
    assert!(Wavetable::from_samples(vec![0.0f32; 2049]).is_none());
    assert!(Wavetable::from_samples(Vec::<f32>::new()).is_none());
    let samples = ramp(2048);
    assert_eq!(Wavetable::from_samples(samples.clone()).unwrap().to_vec(), samples);
}

#[test]
fn filled_table_holds_one_value() {
    let table = Wavetable::filled(0.5f32);
    assert_eq!(table.to_vec(), vec![0.5f32; 2048]);
}

#[test]
fn around_gives_a_slot_and_its_successor() {
    let samples: Vec<f32> = (0..2048).map(|k| k as f32).collect();
    let table = Wavetable::from_samples(samples).unwrap();
    assert_eq!(table.around(0), (0.0, 1.0));
    assert_eq!(table.around(100), (100.0, 101.0));
    assert_eq!(table.around(2047), (2047.0, 0.0));
    assert_eq!(table.around(2048), (0.0, 1.0));
    assert_eq!(table.around(usize::MAX), (2047.0, 0.0));
}

#[test]
fn snapshot_is_the_first_256_samples() {
    let samples = ramp(2048);
    let table = Wavetable::from_samples(samples.clone()).unwrap();
    let snap = table.snapshot();
    assert_eq!(snap.len(), 256);
    assert_eq!(snap, samples[..256].to_vec());
}

#[test]
fn get_wavetable_returns_the_default_table() {
    let tables = OscTables::new(sine_table(), sine_table());
    let expected = sine_table().to_vec();
    assert_eq!(tables.get_wavetable(0, 0.0), expected);
    assert_eq!(tables.get_wavetable(1, 0.0), expected);
    assert_eq!(expected[0], 0.0);
    assert_eq!(expected[512], 1.0);
}

#[test]
fn get_wavetable_of_a_missing_oscillator_is_silence() {
    let tables = OscTables::new(sine_table(), sine_table());
    assert_eq!(tables.get_wavetable(2, 0.0), vec![0.0f32; 2048]);
    assert_eq!(tables.get_wavetable(usize::MAX, 0.0), vec![0.0f32; 2048]);
    assert!(tables.table(2).is_none());
    assert!(tables.table(0).is_some());
    assert!(tables.table(1).is_some());
}

#[test]
fn set_wavetable_then_get_wavetable() {
    for len in [1usize, 2, 3, 255, 256, 2048, 3000] {
        let mut tables = OscTables::new(sine_table(), sine_table());
        let source = ramp(len);
        assert!(tables.set_wavetable(1, &source, mix));
        let got = tables.get_wavetable(1, 0.0);
        assert_eq!(got.len(), WAVETABLE_SIZE);
        assert_eq!(got[0], source[0]);
        let last = blend_at(2047, len).unwrap();
        assert_eq!(got[2047], mix(source[last.lower], source[last.upper], last.weight));
        assert_eq!(got, resample_in_floats(&source));
        assert_eq!(tables.get_wavetable(0, 0.0), sine_table().to_vec());
    }
}

#[test]
fn set_wavetable_with_nothing_leaves_the_table() {
    let mut tables = OscTables::new(sine_table(), sine_table());
    assert!(tables.set_wavetable(0, &vec![0.5f32, -0.5], mix));
    let before = tables.get_wavetable(0, 0.0);
    assert!(!tables.set_wavetable(0, &Vec::new(), mix));
    assert_eq!(tables.get_wavetable(0, 0.0), before);
    assert!(!tables.set_wavetable(0, &Vec::new(), mix));
    assert_eq!(tables.get_wavetable(0, 0.0), before);
    assert_eq!(tables.get_wavetable(1, 0.0), sine_table().to_vec());
}

#[test]
fn set_wavetable_of_a_missing_oscillator_changes_nothing() {
    let mut tables = OscTables::new(sine_table(), sine_table());
    assert!(!tables.set_wavetable(2, &vec![1.0f32; 16], mix));
    assert!(!tables.set_wavetable(usize::MAX, &vec![1.0f32; 16], mix));
    assert_eq!(tables.get_wavetable(0, 0.0), sine_table().to_vec());
    assert_eq!(tables.get_wavetable(1, 0.0), sine_table().to_vec());
}

#[test]
fn table_lookup_reads_what_was_set() {
    let mut tables = OscTables::new(sine_table(), sine_table());
    tables.set_wavetable(0, &vec![0.0f32, 1.0], mix);
    let table = tables.table(0).unwrap();
    assert_eq!(table.around(512), (0.5, mix(0.0, 1.0, 1026)));
    assert_eq!(table.around(1024).0, 1.0);
}

#[test]
fn entries_that_fall_on_a_source_slot_are_not_blended() {
    // A blend that would spoil every sample it is asked for.
    let spoil = |_lower: f32, _upper: f32, _weight: usize| f32::NAN;
    let source = vec![0.25f32, -0.5, 0.75, 1.0];
    let table = Wavetable::resample(&source, spoil).unwrap().to_vec();
    assert_eq!(table[0], 0.25);
    assert_eq!(table[512], -0.5);
    assert_eq!(table[1024], 0.75);
    assert_eq!(table[1536], 1.0);
    assert!(table[1].is_nan());
    let same = ramp(WAVETABLE_SIZE);
    assert_eq!(Wavetable::resample(&same, spoil).unwrap().to_vec(), same);
    let long = ramp(2 * WAVETABLE_SIZE);
    let halved = Wavetable::resample(&long, spoil).unwrap().to_vec();
    assert_eq!(halved[2047], long[4094]);
    assert_eq!(halved[0], long[0]);
}
