//! What a preset carries.
//!
//! A preset lists the numbers of some controls under their names, and the
//! leading samples of both wavetables. Reading a preset sets every control
//! that it has an entry for, whether or not a preset written by the engine
//! would list that control.

use vstd::prelude::*;
use crate::params::{EnvControl, FilterControl, OscControl, Param, Route, Slot};
use crate::rules::Rule;

verus! {

/// What a preset carries: the numbers of the controls it lists, each under
/// the name of its control, and the leading samples of the wavetables, one
/// run of samples for each oscillator.
pub struct Preset<S> {
    pub fields: Vec<(String, S)>,
    pub wavetables: Vec<Vec<S>>,
}

/// The controls whose values a preset carries, in the order in which it
/// lists them.
pub open spec fn preset_order() -> Seq<Param> {
    seq![
        Param::MasterGain,
        Param::Osc(Slot::First, OscControl::Waveform),
        Param::Osc(Slot::First, OscControl::Gain),
        Param::Osc(Slot::First, OscControl::Detune),
        Param::Osc(Slot::Second, OscControl::Waveform),
        Param::Osc(Slot::Second, OscControl::Gain),
        Param::Osc(Slot::Second, OscControl::Detune),
        Param::Env(EnvControl::Attack),
        Param::Env(EnvControl::Decay),
        Param::Env(EnvControl::Sustain),
        Param::Env(EnvControl::Release),
        Param::Filter(FilterControl::Cutoff),
        Param::Filter(FilterControl::Resonance),
        Param::Mod(Route::Lfo0ToCutoff),
        Param::Mod(Route::Lfo1ToCutoff),
        Param::Mod(Route::EnvToCutoff),
    ]
}

/// The controls whose values a preset carries, in the order in which it
/// lists them.
pub fn preset_fields() -> (fields: Vec<Param>)
    ensures
        fields@ == preset_order(),
{
    let mut fields: Vec<Param> = Vec::with_capacity(16);
    fields.push(Param::MasterGain);
    fields.push(Param::Osc(Slot::First, OscControl::Waveform));
    fields.push(Param::Osc(Slot::First, OscControl::Gain));
    fields.push(Param::Osc(Slot::First, OscControl::Detune));
    fields.push(Param::Osc(Slot::Second, OscControl::Waveform));
    fields.push(Param::Osc(Slot::Second, OscControl::Gain));
    fields.push(Param::Osc(Slot::Second, OscControl::Detune));
    fields.push(Param::Env(EnvControl::Attack));
    fields.push(Param::Env(EnvControl::Decay));
    fields.push(Param::Env(EnvControl::Sustain));
    fields.push(Param::Env(EnvControl::Release));
    fields.push(Param::Filter(FilterControl::Cutoff));
    fields.push(Param::Filter(FilterControl::Resonance));
    fields.push(Param::Mod(Route::Lfo0ToCutoff));
    fields.push(Param::Mod(Route::Lfo1ToCutoff));
    fields.push(Param::Mod(Route::EnvToCutoff));
    assert(fields@ =~= preset_order());
    fields
}

/// A preset lists no control twice, and no switch: every control it lists
/// holds a number.
pub proof fn preset_order_is_plain()
    ensures
        preset_order().no_duplicates(),
        forall|k: int|
            0 <= k < preset_order().len() ==> (#[trigger] preset_order()[k]).rule_spec()
                != Rule::Switch,
{
}

} // verus!
