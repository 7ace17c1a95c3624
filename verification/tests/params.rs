use polysynth::params::{
    EnvControl, FilterControl, FxControl, LfoControl, OscControl, Param, Route, Slot,
};
use polysynth::preset::preset_fields;
use polysynth::rules::{Limit, Ratio, Rule};
use polysynth::waveform::Waveform;
use polysynth::text::same_text;

const ROUTES: [Route; 7] = [
    Route::Lfo0ToCutoff,
    Route::Lfo1ToCutoff,
    Route::EnvToCutoff,
    Route::Lfo0ToAmp,
    Route::Lfo1ToAmp,
    Route::Lfo0ToWtpos,
    Route::Lfo1ToWtpos,
];

fn all_params() -> Vec<Param> {
    let mut all = Vec::new();
    for slot in [Slot::First, Slot::Second] {
        for control in [OscControl::Waveform, OscControl::Gain, OscControl::Detune] {
            all.push(Param::Osc(slot, control));
        }
        for control in [LfoControl::Rate, LfoControl::Amount] {
            all.push(Param::Lfo(slot, control));
        }
    }
    for control in [EnvControl::Attack, EnvControl::Decay, EnvControl::Sustain, EnvControl::Release]
    {
        all.push(Param::Env(control));
    }
    for control in [FilterControl::Cutoff, FilterControl::Resonance, FilterControl::Envelope] {
        all.push(Param::Filter(control));
    }
    for control in [
        FxControl::DelayTime,
        FxControl::DelayFeedback,
        FxControl::DelayWet,
        FxControl::ReverbWet,
    ] {
        all.push(Param::Fx(control));
    }
    all.push(Param::Retrigger);
    all.push(Param::MasterGain);
    for route in ROUTES {
        all.push(Param::Mod(route));
    }
    all
}

fn ratio(num: u32, den: u32) -> Ratio {
    Ratio { num, den }
}

fn as_float(r: Ratio) -> f32 {
    r.num as f32 / r.den as f32
}

#[test]
fn oscillator_names() {
    assert_eq!(Param::from_name("osc0_waveform"), Some(Param::Osc(Slot::First, OscControl::Waveform)));
    assert_eq!(Param::from_name("osc1_waveform"), Some(Param::Osc(Slot::Second, OscControl::Waveform)));
    assert_eq!(Param::from_name("osc0_gain"), Some(Param::Osc(Slot::First, OscControl::Gain)));
    assert_eq!(Param::from_name("osc1_gain"), Some(Param::Osc(Slot::Second, OscControl::Gain)));
    assert_eq!(Param::from_name("osc0_detune"), Some(Param::Osc(Slot::First, OscControl::Detune)));
    assert_eq!(Param::from_name("osc1_detune"), Some(Param::Osc(Slot::Second, OscControl::Detune)));
}

#[test]
fn oscillator_gain_answers_to_volume_too() {
    assert_eq!(Param::from_name("osc0_volume"), Some(Param::Osc(Slot::First, OscControl::Gain)));
    assert_eq!(Param::from_name("osc1_volume"), Some(Param::Osc(Slot::Second, OscControl::Gain)));
}

#[test]
fn envelope_names() {
    assert_eq!(Param::from_name("env_attack"), Some(Param::Env(EnvControl::Attack)));
    assert_eq!(Param::from_name("env_decay"), Some(Param::Env(EnvControl::Decay)));
    assert_eq!(Param::from_name("env_sustain"), Some(Param::Env(EnvControl::Sustain)));
    assert_eq!(Param::from_name("env_release"), Some(Param::Env(EnvControl::Release)));
}

#[test]
fn filter_names() {
    assert_eq!(Param::from_name("filter_cutoff"), Some(Param::Filter(FilterControl::Cutoff)));
    assert_eq!(Param::from_name("filter_resonance"), Some(Param::Filter(FilterControl::Resonance)));
    assert_eq!(Param::from_name("filter_env"), Some(Param::Filter(FilterControl::Envelope)));
}

#[test]
fn lfo_names() {
    assert_eq!(Param::from_name("lfo0_rate"), Some(Param::Lfo(Slot::First, LfoControl::Rate)));
    assert_eq!(Param::from_name("lfo0_amount"), Some(Param::Lfo(Slot::First, LfoControl::Amount)));
    assert_eq!(Param::from_name("lfo1_rate"), Some(Param::Lfo(Slot::Second, LfoControl::Rate)));
    assert_eq!(Param::from_name("lfo1_amount"), Some(Param::Lfo(Slot::Second, LfoControl::Amount)));
    assert_eq!(Param::from_name("lfo0_retrigger"), Some(Param::Retrigger));
    assert_eq!(Param::from_name("lfo1_retrigger"), None);
}

#[test]
fn effect_and_master_names() {
    assert_eq!(Param::from_name("fx_delay_time"), Some(Param::Fx(FxControl::DelayTime)));
    assert_eq!(Param::from_name("fx_delay_feedback"), Some(Param::Fx(FxControl::DelayFeedback)));
    assert_eq!(Param::from_name("fx_delay_wet"), Some(Param::Fx(FxControl::DelayWet)));
    assert_eq!(Param::from_name("fx_reverb_wet"), Some(Param::Fx(FxControl::ReverbWet)));
    assert_eq!(Param::from_name("master_gain"), Some(Param::MasterGain));
}

#[test]
fn route_names() {
    assert_eq!(Route::from_name("mod_lfo0_to_cutoff"), Some(Route::Lfo0ToCutoff));
    assert_eq!(Route::from_name("mod_lfo1_to_cutoff"), Some(Route::Lfo1ToCutoff));
    assert_eq!(Route::from_name("mod_env_to_cutoff"), Some(Route::EnvToCutoff));
    assert_eq!(Route::from_name("mod_lfo0_to_amp"), Some(Route::Lfo0ToAmp));
    assert_eq!(Route::from_name("mod_lfo1_to_amp"), Some(Route::Lfo1ToAmp));
    assert_eq!(Route::from_name("mod_lfo0_to_wtpos"), Some(Route::Lfo0ToWtpos));
    assert_eq!(Route::from_name("mod_lfo1_to_wtpos"), Some(Route::Lfo1ToWtpos));
    for route in ROUTES {
        assert_eq!(Param::from_name(route.name()), Some(Param::Mod(route)));
    }
}

#[test]
fn unknown_names_reach_nothing() {
    for name in [
        "",
        "osc",
        "osc0",
        "osc2_gain",
        "osc0_sync",
        "osc1_sync",
        "OSC0_GAIN",
        "osc0_gain ",
        " osc0_gain",
        "osc0_gains",
        "mod_",
        "mod_env_to_amp",
        "mod_lfo2_to_cutoff",
        "mod_lfo0_to_cutoff_",
        "master",
        "fx_reverb_size",
        "fx_reverb_decay",
        "filter",
        "m\u{f6}d_lfo0_to_amp",
    ] {
        assert_eq!(Param::from_name(name), None, "{:?}", name);
        assert_eq!(Route::from_name(name), None, "{:?}", name);
    }
    assert_eq!(Route::from_name("osc0_gain"), None);
}

#[test]
fn every_control_is_found_under_its_own_name() {
    let all = all_params();
    assert_eq!(all.len(), 30);
    for p in &all {
        assert_eq!(Param::from_name(p.name()), Some(*p));
    }
    for (i, p) in all.iter().enumerate() {
        for q in &all[i + 1..] {
            assert_ne!(p.name(), q.name());
        }
    }
}

#[test]
fn canonical_names() {
    assert_eq!(Param::Osc(Slot::First, OscControl::Gain).name(), "osc0_gain");
    assert_eq!(Param::Osc(Slot::Second, OscControl::Gain).name(), "osc1_gain");
    assert_eq!(Param::Retrigger.name(), "lfo0_retrigger");
    assert_eq!(Param::Mod(Route::EnvToCutoff).name(), "mod_env_to_cutoff");
    assert_eq!(Route::Lfo1ToWtpos.name(), "mod_lfo1_to_wtpos");
}

#[test]
fn slots_count_from_zero() {
    assert_eq!(Slot::First.index(), 0);
    assert_eq!(Slot::Second.index(), 1);
}

#[test]
fn rules_of_the_oscillators() {
    for slot in [Slot::First, Slot::Second] {
        assert_eq!(Param::Osc(slot, OscControl::Waveform).rule(), Rule::Selector);
        assert_eq!(Param::Osc(slot, OscControl::Gain).rule(), Rule::Free);
        assert_eq!(Param::Osc(slot, OscControl::Detune).rule(), Rule::Free);
        assert_eq!(Param::Lfo(slot, LfoControl::Rate).rule(), Rule::AtLeast(ratio(0, 1)));
        assert_eq!(Param::Lfo(slot, LfoControl::Amount).rule(), Rule::Free);
    }
}

#[test]
fn rules_of_the_envelope() {
    let floor = Rule::AtLeast(ratio(1, 10000));
    assert_eq!(Param::Env(EnvControl::Attack).rule(), floor);
    assert_eq!(Param::Env(EnvControl::Decay).rule(), floor);
    assert_eq!(Param::Env(EnvControl::Release).rule(), floor);
    assert_eq!(Param::Env(EnvControl::Sustain).rule(), Rule::Within(ratio(0, 1), ratio(1, 1)));
    assert_eq!(as_float(ratio(1, 10000)), 0.0001f32);
}

#[test]
fn rules_of_the_filter() {
    assert_eq!(
        Param::Filter(FilterControl::Cutoff).rule(),
        Rule::Frequency { floor: ratio(20, 1), share: ratio(49, 100) }
    );
    assert_eq!(Param::Filter(FilterControl::Resonance).rule(), Rule::AtLeast(ratio(0, 1)));
    assert_eq!(Param::Filter(FilterControl::Envelope).rule(), Rule::Switch);
    assert_eq!(as_float(ratio(49, 100)), 0.49f32);
}

#[test]
fn rules_of_the_effects() {
    assert_eq!(Param::Fx(FxControl::DelayTime).rule(), Rule::Within(ratio(0, 1), ratio(5, 1)));
    assert_eq!(
        Param::Fx(FxControl::DelayFeedback).rule(),
        Rule::Within(ratio(0, 1), ratio(99, 100))
    );
    assert_eq!(Param::Fx(FxControl::DelayWet).rule(), Rule::Within(ratio(0, 1), ratio(1, 1)));
    assert_eq!(Param::Fx(FxControl::ReverbWet).rule(), Rule::Within(ratio(0, 1), ratio(1, 1)));
    assert_eq!(as_float(ratio(99, 100)), 0.99f32);
}

#[test]
fn rules_of_the_rest() {
    assert_eq!(Param::Retrigger.rule(), Rule::Switch);
    assert_eq!(Param::MasterGain.rule(), Rule::Free);
    for route in ROUTES {
        assert_eq!(Param::Mod(route).rule(), Rule::Free);
    }
}

#[test]
fn bounds_of_every_rule_are_in_order() {
    for p in all_params() {
        match p.rule() {
            Rule::AtLeast(low) => assert!(low.den > 0),
            Rule::Within(low, high) => {
                assert!(low.den > 0 && high.den > 0);
                assert!(as_float(low) <= as_float(high));
            }
            Rule::Frequency { floor, share } => assert!(floor.den > 0 && share.den > 0),
            Rule::Free | Rule::Switch | Rule::Selector => {}
        }
    }
}

#[test]
fn preset_lists_its_fields_in_order() {
    let names: Vec<&str> = preset_fields().iter().map(|p| p.name()).collect();
    assert_eq!(
        names,
        vec![
            "master_gain",
            "osc0_waveform",
            "osc0_gain",
            "osc0_detune",
            "osc1_waveform",
            "osc1_gain",
            "osc1_detune",
            "env_attack",
            "env_decay",
            "env_sustain",
            "env_release",
            "filter_cutoff",
            "filter_resonance",
            "mod_lfo0_to_cutoff",
            "mod_lfo1_to_cutoff",
            "mod_env_to_cutoff",
        ]
    );
}

#[test]
fn preset_lists_no_control_twice_and_no_switch() {
    let fields = preset_fields();
    assert_eq!(fields.len(), 16);
    for (i, p) in fields.iter().enumerate() {
        assert_ne!(p.rule(), Rule::Switch);
        for q in &fields[i + 1..] {
            assert_ne!(p, q);
        }
    }
}

#[test]
fn every_field_of_a_preset_is_found_again_by_name() {
    for p in preset_fields() {
        assert_eq!(Param::from_name(p.name()), Some(p));
    }
}

#[test]
fn same_text_compares_whole_strings() {
    assert!(same_text("", ""));
    assert!(same_text("osc0_gain", "osc0_gain"));
    assert!(!same_text("osc0_gain", "osc1_gain"));
    assert!(!same_text("osc0_gain", "osc0_gai"));
    assert!(!same_text("osc0_gai", "osc0_gain"));
    assert!(!same_text("", "a"));
    assert!(same_text("gr\u{fc}n", "gr\u{fc}n"));
    assert!(!same_text("gr\u{fc}n", "grun"));
    let built: String = ["fx_", "delay", "_wet"].concat();
    assert!(same_text(&built, "fx_delay_wet"));
}

/// A rule applied in the host's arithmetic.
fn ranged(rule: Rule, value: f32, sample_rate: f32) -> f32 {
    match rule {
        Rule::Free | Rule::Switch | Rule::Selector => value,
        Rule::AtLeast(low) => value.max(as_float(low)),
        Rule::Within(low, high) => value.max(as_float(low)).min(as_float(high)),
        Rule::Frequency { floor, share } => {
            value.max(as_float(floor)).min(sample_rate * as_float(share))
        }
    }
}

#[test]
fn starting_values() {
    for slot in [Slot::First, Slot::Second] {
        assert_eq!(Param::Osc(slot, OscControl::Waveform).default_value(), ratio(1, 1));
        assert_eq!(as_float(Param::Osc(slot, OscControl::Gain).default_value()), 0.8f32);
        assert_eq!(as_float(Param::Osc(slot, OscControl::Detune).default_value()), 0.0f32);
        assert_eq!(as_float(Param::Lfo(slot, LfoControl::Rate).default_value()), 2.5f32);
        assert_eq!(as_float(Param::Lfo(slot, LfoControl::Amount).default_value()), 0.0f32);
    }
    assert_eq!(as_float(Param::Env(EnvControl::Attack).default_value()), 0.01f32);
    assert_eq!(as_float(Param::Env(EnvControl::Decay).default_value()), 0.2f32);
    assert_eq!(as_float(Param::Env(EnvControl::Sustain).default_value()), 0.8f32);
    assert_eq!(as_float(Param::Env(EnvControl::Release).default_value()), 0.3f32);
    assert_eq!(as_float(Param::Filter(FilterControl::Cutoff).default_value()), 1200.0f32);
    assert_eq!(as_float(Param::Filter(FilterControl::Resonance).default_value()), 0.6f32);
    assert_eq!(Param::Filter(FilterControl::Envelope).default_value(), ratio(1, 1));
    assert_eq!(Param::Retrigger.default_value(), ratio(0, 1));
    assert_eq!(as_float(Param::Fx(FxControl::DelayTime).default_value()), 0.3f32);
    assert_eq!(as_float(Param::Fx(FxControl::DelayFeedback).default_value()), 0.35f32);
    assert_eq!(as_float(Param::Fx(FxControl::DelayWet).default_value()), 0.35f32);
    assert_eq!(as_float(Param::Fx(FxControl::ReverbWet).default_value()), 0.35f32);
    assert_eq!(as_float(Param::MasterGain.default_value()), 0.9f32);
    assert_eq!(as_float(Param::Mod(Route::Lfo0ToCutoff).default_value()), 0.3f32);
    for route in &ROUTES[1..] {
        assert_eq!(Param::Mod(*route).default_value(), ratio(0, 1));
    }
}

#[test]
fn the_starting_waveform_is_the_saw() {
    let start = Param::Osc(Slot::First, OscControl::Waveform).default_value();
    assert_eq!(Waveform::from_index(as_float(start).round() as i32), Waveform::Saw);
    assert_eq!(Waveform::default().to_index() as u32, start.num);
}

#[test]
fn every_starting_value_passes_its_rule_unchanged() {
    for sample_rate in [8000.0f32, 44100.0, 48000.0, 96000.0] {
        for p in all_params() {
            let start = as_float(p.default_value());
            assert_eq!(ranged(p.rule(), start, sample_rate), start, "{:?}", p);
        }
    }
}

#[test]
fn a_preset_of_a_fresh_engine_reads_back_unchanged() {
    // What a fresh engine writes down, field by field, and what comes of
    // setting each field again under its name.
    let sample_rate = 44100.0f32;
    for p in preset_fields() {
        let written = (p.name(), as_float(p.default_value()));
        let read = Param::from_name(written.0).unwrap();
        assert_eq!(read, p);
        assert_eq!(ranged(read.rule(), written.1, sample_rate), as_float(p.default_value()));
    }
}

#[test]
fn the_starting_cutoff_is_lowered_at_a_low_sample_rate() {
    let cutoff = Param::Filter(FilterControl::Cutoff);
    let start = as_float(cutoff.default_value());
    assert_eq!(ranged(cutoff.rule(), start, 1000.0), 490.0);
    assert_eq!(ranged(cutoff.rule(), start, 2449.0), start);
    assert!(ranged(cutoff.rule(), start, 2448.0) < start);
}

#[test]
fn rules_bring_values_into_range() {
    let attack = Param::Env(EnvControl::Attack).rule();
    assert_eq!(ranged(attack, 0.0, 48000.0), 0.0001);
    assert_eq!(ranged(attack, -3.0, 48000.0), 0.0001);
    assert_eq!(ranged(attack, 2.0, 48000.0), 2.0);
    let feedback = Param::Fx(FxControl::DelayFeedback).rule();
    assert_eq!(ranged(feedback, 1.5, 48000.0), 0.99);
    assert_eq!(ranged(feedback, -1.0, 48000.0), 0.0);
    assert_eq!(ranged(feedback, 0.5, 48000.0), 0.5);
    let cutoff = Param::Filter(FilterControl::Cutoff).rule();
    assert_eq!(ranged(cutoff, 5.0, 48000.0), 20.0);
    assert_eq!(ranged(cutoff, 1e9, 48000.0), 48000.0 * 0.49);
    let time = Param::Fx(FxControl::DelayTime).rule();
    assert_eq!(ranged(time, 9.0, 48000.0), 5.0);
    assert_eq!(ranged(Param::MasterGain.rule(), -7.5, 48000.0), -7.5);
}

#[test]
fn limits_inside_the_engine() {
    assert_eq!(Limit::VoiceGain.rule(), Rule::Within(ratio(0, 1), ratio(4, 1)));
    assert_eq!(Limit::CombFeedback.rule(), Rule::Within(ratio(1, 2), ratio(98, 100)));
    assert_eq!(Limit::ReverbSize.rule(), Rule::Within(ratio(1, 2), ratio(3, 2)));
    assert_eq!(Limit::ReverbDecay.rule(), Rule::Within(ratio(2, 10), ratio(8, 1)));
    assert_eq!(Limit::FeedbackTone.rule(), Rule::Within(ratio(500, 1), ratio(12000, 1)));
    assert_eq!(as_float(ratio(98, 100)), 0.98f32);
    assert_eq!(as_float(ratio(2, 10)), 0.2f32);
    assert_eq!(ranged(Limit::VoiceGain.rule(), 7.0, 0.0), 4.0);
    assert_eq!(ranged(Limit::CombFeedback.rule(), 0.999, 0.0), 0.98);
    assert_eq!(ranged(Limit::CombFeedback.rule(), 0.1, 0.0), 0.5);
    assert_eq!(ranged(Limit::ReverbSize.rule(), 2.0, 0.0), 1.5);
}

#[test]
fn no_feedback_gain_reaches_one() {
    for rule in [Param::Fx(FxControl::DelayFeedback).rule(), Limit::CombFeedback.rule()] {
        match rule {
            Rule::Within(low, high) => {
                assert!(as_float(high) < 1.0);
                assert!(as_float(low) <= as_float(high));
                assert!(ranged(rule, f32::INFINITY, 48000.0) < 1.0);
            }
            other => panic!("{:?}", other),
        }
    }
}
