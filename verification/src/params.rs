//! The host's parameter names and what each of them controls.
//!
//! The host sets controls by name. This module fixes the namespace: which
//! names there are and which control each one reaches. Names outside the
//! namespace reach nothing.

use vstd::prelude::*;
use crate::text::same_text;

verus! {

/// One of the two oscillators, or one of the two LFOs.
#[derive(Clone, Copy, Debug, PartialEq, Eq, Structural)]
pub enum Slot {
    First,
    Second,
}

impl Slot {
    /// The position of the slot, from zero.
    pub open spec fn index_spec(self) -> int {
        match self {
            Slot::First => 0,
            Slot::Second => 1,
        }
    }

    /// The position of the slot, from zero.
    pub fn index(&self) -> (i: usize)
        ensures
            i == self.index_spec(),
            i < 2,
    {
        match self {
            Slot::First => 0,
            Slot::Second => 1,
        }
    }
}

/// A route of the modulation matrix: a source and the destination it acts
/// on.
#[derive(Clone, Copy, Debug, PartialEq, Eq, Structural)]
pub enum Route {
    Lfo0ToCutoff,
    Lfo1ToCutoff,
    EnvToCutoff,
    Lfo0ToAmp,
    Lfo1ToAmp,
    Lfo0ToWtpos,
    Lfo1ToWtpos,
}

/// The controls of one oscillator.
#[derive(Clone, Copy, Debug, PartialEq, Eq, Structural)]
pub enum OscControl {
    Waveform,
    Gain,
    Detune,
}

/// The controls of the envelope that new voices start with.
#[derive(Clone, Copy, Debug, PartialEq, Eq, Structural)]
pub enum EnvControl {
    Attack,
    Decay,
    Sustain,
    Release,
}

/// The controls of the filter.
#[derive(Clone, Copy, Debug, PartialEq, Eq, Structural)]
pub enum FilterControl {
    Cutoff,
    Resonance,
    Envelope,
}

/// The controls of one LFO.
#[derive(Clone, Copy, Debug, PartialEq, Eq, Structural)]
pub enum LfoControl {
    Rate,
    Amount,
}

/// The controls of the effects.
#[derive(Clone, Copy, Debug, PartialEq, Eq, Structural)]
pub enum FxControl {
    DelayTime,
    DelayFeedback,
    DelayWet,
    ReverbWet,
}

/// A control of the engine that the host can set by name.
#[derive(Clone, Copy, Debug, PartialEq, Eq, Structural)]
pub enum Param {
    Osc(Slot, OscControl),
    Env(EnvControl),
    Filter(FilterControl),
    Lfo(Slot, LfoControl),
    /// Whether striking a note restarts the first LFO.
    Retrigger,
    Fx(FxControl),
    MasterGain,
    Mod(Route),
}

impl Route {
    /// The name of the route in the host's namespace.
    pub open spec fn name_spec(self) -> Seq<char> {
        match self {
            Route::Lfo0ToCutoff => "mod_lfo0_to_cutoff"@,
            Route::Lfo1ToCutoff => "mod_lfo1_to_cutoff"@,
            Route::EnvToCutoff => "mod_env_to_cutoff"@,
            Route::Lfo0ToAmp => "mod_lfo0_to_amp"@,
            Route::Lfo1ToAmp => "mod_lfo1_to_amp"@,
            Route::Lfo0ToWtpos => "mod_lfo0_to_wtpos"@,
            Route::Lfo1ToWtpos => "mod_lfo1_to_wtpos"@,
        }
    }

    /// The route that `name` stands for, if it names one.
    pub open spec fn of_name(name: Seq<char>) -> Option<Route> {
        if name == "mod_lfo0_to_cutoff"@ {
            Some(Route::Lfo0ToCutoff)
        } else if name == "mod_lfo1_to_cutoff"@ {
            Some(Route::Lfo1ToCutoff)
        } else if name == "mod_env_to_cutoff"@ {
            Some(Route::EnvToCutoff)
        } else if name == "mod_lfo0_to_amp"@ {
            Some(Route::Lfo0ToAmp)
        } else if name == "mod_lfo1_to_amp"@ {
            Some(Route::Lfo1ToAmp)
        } else if name == "mod_lfo0_to_wtpos"@ {
            Some(Route::Lfo0ToWtpos)
        } else if name == "mod_lfo1_to_wtpos"@ {
            Some(Route::Lfo1ToWtpos)
        } else {
            None
        }
    }

    /// The name of the route in the host's namespace.
    pub fn name(&self) -> (name: &'static str)
        ensures
            name@ == self.name_spec(),
    {
        match self {
            Route::Lfo0ToCutoff => "mod_lfo0_to_cutoff",
            Route::Lfo1ToCutoff => "mod_lfo1_to_cutoff",
            Route::EnvToCutoff => "mod_env_to_cutoff",
            Route::Lfo0ToAmp => "mod_lfo0_to_amp",
            Route::Lfo1ToAmp => "mod_lfo1_to_amp",
            Route::Lfo0ToWtpos => "mod_lfo0_to_wtpos",
            Route::Lfo1ToWtpos => "mod_lfo1_to_wtpos",
        }
    }

    /// The route that `name` stands for; `None` for any other name.
    pub fn from_name(name: &str) -> (route: Option<Route>)
        ensures
            route == Route::of_name(name@),
    {
        if same_text(name, "mod_lfo0_to_cutoff") {
            Some(Route::Lfo0ToCutoff)
        } else if same_text(name, "mod_lfo1_to_cutoff") {
            Some(Route::Lfo1ToCutoff)
        } else if same_text(name, "mod_env_to_cutoff") {
            Some(Route::EnvToCutoff)
        } else if same_text(name, "mod_lfo0_to_amp") {
            Some(Route::Lfo0ToAmp)
        } else if same_text(name, "mod_lfo1_to_amp") {
            Some(Route::Lfo1ToAmp)
        } else if same_text(name, "mod_lfo0_to_wtpos") {
            Some(Route::Lfo0ToWtpos)
        } else if same_text(name, "mod_lfo1_to_wtpos") {
            Some(Route::Lfo1ToWtpos)
        } else {
            None
        }
    }
}

impl Param {
    /// The name of the control in the host's namespace.
    pub open spec fn name_spec(self) -> Seq<char> {
        match self {
            Param::Osc(Slot::First, OscControl::Waveform) => "osc0_waveform"@,
            Param::Osc(Slot::Second, OscControl::Waveform) => "osc1_waveform"@,
            Param::Osc(Slot::First, OscControl::Gain) => "osc0_gain"@,
            Param::Osc(Slot::Second, OscControl::Gain) => "osc1_gain"@,
            Param::Osc(Slot::First, OscControl::Detune) => "osc0_detune"@,
            Param::Osc(Slot::Second, OscControl::Detune) => "osc1_detune"@,
            Param::Env(EnvControl::Attack) => "env_attack"@,
            Param::Env(EnvControl::Decay) => "env_decay"@,
            Param::Env(EnvControl::Sustain) => "env_sustain"@,
            Param::Env(EnvControl::Release) => "env_release"@,
            Param::Filter(FilterControl::Cutoff) => "filter_cutoff"@,
            Param::Filter(FilterControl::Resonance) => "filter_resonance"@,
            Param::Filter(FilterControl::Envelope) => "filter_env"@,
            Param::Lfo(Slot::First, LfoControl::Rate) => "lfo0_rate"@,
            Param::Lfo(Slot::First, LfoControl::Amount) => "lfo0_amount"@,
            Param::Lfo(Slot::Second, LfoControl::Rate) => "lfo1_rate"@,
            Param::Lfo(Slot::Second, LfoControl::Amount) => "lfo1_amount"@,
            Param::Retrigger => "lfo0_retrigger"@,
            Param::Fx(FxControl::DelayTime) => "fx_delay_time"@,
            Param::Fx(FxControl::DelayFeedback) => "fx_delay_feedback"@,
            Param::Fx(FxControl::DelayWet) => "fx_delay_wet"@,
            Param::Fx(FxControl::ReverbWet) => "fx_reverb_wet"@,
            Param::MasterGain => "master_gain"@,
            Param::Mod(route) => route.name_spec(),
        }
    }

    /// The control that `name` stands for, if it names one. The gain of an
    /// oscillator also answers to `osc0_volume` and `osc1_volume`.
    pub open spec fn of_name(name: Seq<char>) -> Option<Param> {
        if name == "osc0_waveform"@ {
            Some(Param::Osc(Slot::First, OscControl::Waveform))
        } else if name == "osc1_waveform"@ {
            Some(Param::Osc(Slot::Second, OscControl::Waveform))
        } else if name == "osc0_gain"@ {
            Some(Param::Osc(Slot::First, OscControl::Gain))
        } else if name == "osc0_volume"@ {
            Some(Param::Osc(Slot::First, OscControl::Gain))
        } else if name == "osc1_gain"@ {
            Some(Param::Osc(Slot::Second, OscControl::Gain))
        } else if name == "osc1_volume"@ {
            Some(Param::Osc(Slot::Second, OscControl::Gain))
        } else if name == "osc0_detune"@ {
            Some(Param::Osc(Slot::First, OscControl::Detune))
        } else if name == "osc1_detune"@ {
            Some(Param::Osc(Slot::Second, OscControl::Detune))
        } else if name == "env_attack"@ {
            Some(Param::Env(EnvControl::Attack))
        } else if name == "env_decay"@ {
            Some(Param::Env(EnvControl::Decay))
        } else if name == "env_sustain"@ {
            Some(Param::Env(EnvControl::Sustain))
        } else if name == "env_release"@ {
            Some(Param::Env(EnvControl::Release))
        } else if name == "filter_cutoff"@ {
            Some(Param::Filter(FilterControl::Cutoff))
        } else if name == "filter_resonance"@ {
            Some(Param::Filter(FilterControl::Resonance))
        } else if name == "filter_env"@ {
            Some(Param::Filter(FilterControl::Envelope))
        } else if name == "lfo0_rate"@ {
            Some(Param::Lfo(Slot::First, LfoControl::Rate))
        } else if name == "lfo0_amount"@ {
            Some(Param::Lfo(Slot::First, LfoControl::Amount))
        } else if name == "lfo1_rate"@ {
            Some(Param::Lfo(Slot::Second, LfoControl::Rate))
        } else if name == "lfo1_amount"@ {
            Some(Param::Lfo(Slot::Second, LfoControl::Amount))
        } else if name == "lfo0_retrigger"@ {
            Some(Param::Retrigger)
        } else if name == "fx_delay_time"@ {
            Some(Param::Fx(FxControl::DelayTime))
        } else if name == "fx_delay_feedback"@ {
            Some(Param::Fx(FxControl::DelayFeedback))
        } else if name == "fx_delay_wet"@ {
            Some(Param::Fx(FxControl::DelayWet))
        } else if name == "fx_reverb_wet"@ {
            Some(Param::Fx(FxControl::ReverbWet))
        } else if name == "master_gain"@ {
            Some(Param::MasterGain)
        } else {
            match Route::of_name(name) {
                Some(route) => Some(Param::Mod(route)),
                None => None,
            }
        }
    }

    /// The name of the control in the host's namespace.
    pub fn name(&self) -> (name: &'static str)
        ensures
            name@ == self.name_spec(),
    {
        match self {
            Param::Osc(Slot::First, OscControl::Waveform) => "osc0_waveform",
            Param::Osc(Slot::Second, OscControl::Waveform) => "osc1_waveform",
            Param::Osc(Slot::First, OscControl::Gain) => "osc0_gain",
            Param::Osc(Slot::Second, OscControl::Gain) => "osc1_gain",
            Param::Osc(Slot::First, OscControl::Detune) => "osc0_detune",
            Param::Osc(Slot::Second, OscControl::Detune) => "osc1_detune",
            Param::Env(EnvControl::Attack) => "env_attack",
            Param::Env(EnvControl::Decay) => "env_decay",
            Param::Env(EnvControl::Sustain) => "env_sustain",
            Param::Env(EnvControl::Release) => "env_release",
            Param::Filter(FilterControl::Cutoff) => "filter_cutoff",
            Param::Filter(FilterControl::Resonance) => "filter_resonance",
            Param::Filter(FilterControl::Envelope) => "filter_env",
            Param::Lfo(Slot::First, LfoControl::Rate) => "lfo0_rate",
            Param::Lfo(Slot::First, LfoControl::Amount) => "lfo0_amount",
            Param::Lfo(Slot::Second, LfoControl::Rate) => "lfo1_rate",
            Param::Lfo(Slot::Second, LfoControl::Amount) => "lfo1_amount",
            Param::Retrigger => "lfo0_retrigger",
            Param::Fx(FxControl::DelayTime) => "fx_delay_time",
            Param::Fx(FxControl::DelayFeedback) => "fx_delay_feedback",
            Param::Fx(FxControl::DelayWet) => "fx_delay_wet",
            Param::Fx(FxControl::ReverbWet) => "fx_reverb_wet",
            Param::MasterGain => "master_gain",
            Param::Mod(route) => route.name(),
        }
    }

    /// The control that `name` stands for; `None` for a name outside the
    /// namespace, which a caller is to ignore.
    pub fn from_name(name: &str) -> (param: Option<Param>)
        ensures
            param == Param::of_name(name@),
    {
        if same_text(name, "osc0_waveform") {
            Some(Param::Osc(Slot::First, OscControl::Waveform))
        } else if same_text(name, "osc1_waveform") {
            Some(Param::Osc(Slot::Second, OscControl::Waveform))
        } else if same_text(name, "osc0_gain") {
            Some(Param::Osc(Slot::First, OscControl::Gain))
        } else if same_text(name, "osc0_volume") {
            Some(Param::Osc(Slot::First, OscControl::Gain))
        } else if same_text(name, "osc1_gain") {
            Some(Param::Osc(Slot::Second, OscControl::Gain))
        } else if same_text(name, "osc1_volume") {
            Some(Param::Osc(Slot::Second, OscControl::Gain))
        } else if same_text(name, "osc0_detune") {
            Some(Param::Osc(Slot::First, OscControl::Detune))
        } else if same_text(name, "osc1_detune") {
            Some(Param::Osc(Slot::Second, OscControl::Detune))
        } else if same_text(name, "env_attack") {
            Some(Param::Env(EnvControl::Attack))
        } else if same_text(name, "env_decay") {
            Some(Param::Env(EnvControl::Decay))
        } else if same_text(name, "env_sustain") {
            Some(Param::Env(EnvControl::Sustain))
        } else if same_text(name, "env_release") {
            Some(Param::Env(EnvControl::Release))
        } else if same_text(name, "filter_cutoff") {
            Some(Param::Filter(FilterControl::Cutoff))
        } else if same_text(name, "filter_resonance") {
            Some(Param::Filter(FilterControl::Resonance))
        } else if same_text(name, "filter_env") {
            Some(Param::Filter(FilterControl::Envelope))
        } else if same_text(name, "lfo0_rate") {
            Some(Param::Lfo(Slot::First, LfoControl::Rate))
        } else if same_text(name, "lfo0_amount") {
            Some(Param::Lfo(Slot::First, LfoControl::Amount))
        } else if same_text(name, "lfo1_rate") {
            Some(Param::Lfo(Slot::Second, LfoControl::Rate))
        } else if same_text(name, "lfo1_amount") {
            Some(Param::Lfo(Slot::Second, LfoControl::Amount))
        } else if same_text(name, "lfo0_retrigger") {
            Some(Param::Retrigger)
        } else if same_text(name, "fx_delay_time") {
            Some(Param::Fx(FxControl::DelayTime))
        } else if same_text(name, "fx_delay_feedback") {
            Some(Param::Fx(FxControl::DelayFeedback))
        } else if same_text(name, "fx_delay_wet") {
            Some(Param::Fx(FxControl::DelayWet))
        } else if same_text(name, "fx_reverb_wet") {
            Some(Param::Fx(FxControl::ReverbWet))
        } else if same_text(name, "master_gain") {
            Some(Param::MasterGain)
        } else {
            match Route::from_name(name) {
                Some(route) => Some(Param::Mod(route)),
                None => None,
            }
        }
    }
}

/// The length of a name with its fourth and its eighth character. No two
/// names of the namespace agree in all three.
spec fn mark(name: Seq<char>) -> (nat, char, char) {
    (name.len(), name[3], name[7])
}

/// Every control is found again under its own name: no two controls share
/// a name, and no control goes by an alias of another.
pub proof fn name_round_trip(p: Param)
    ensures
        Param::of_name(p.name_spec()) == Some(p),
{
    reveal_strlit("env_attack");
    assert(mark("env_attack"@) == (10nat, '_', 'a'));
    reveal_strlit("env_decay");
    assert(mark("env_decay"@) == (9nat, '_', 'a'));
    reveal_strlit("env_release");
    assert(mark("env_release"@) == (11nat, '_', 'e'));
    reveal_strlit("env_sustain");
    assert(mark("env_sustain"@) == (11nat, '_', 't'));
    reveal_strlit("filter_cutoff");
    assert(mark("filter_cutoff"@) == (13nat, 't', 'c'));
    reveal_strlit("filter_env");
    assert(mark("filter_env"@) == (10nat, 't', 'e'));
    reveal_strlit("filter_resonance");
    assert(mark("filter_resonance"@) == (16nat, 't', 'r'));
    reveal_strlit("fx_delay_feedback");
    assert(mark("fx_delay_feedback"@) == (17nat, 'd', 'y'));
    reveal_strlit("fx_delay_time");
    assert(mark("fx_delay_time"@) == (13nat, 'd', 'y'));
    reveal_strlit("fx_delay_wet");
    assert(mark("fx_delay_wet"@) == (12nat, 'd', 'y'));
    reveal_strlit("fx_reverb_wet");
    assert(mark("fx_reverb_wet"@) == (13nat, 'r', 'r'));
    reveal_strlit("lfo0_amount");
    assert(mark("lfo0_amount"@) == (11nat, '0', 'o'));
    reveal_strlit("lfo0_rate");
    assert(mark("lfo0_rate"@) == (9nat, '0', 't'));
    reveal_strlit("lfo0_retrigger");
    assert(mark("lfo0_retrigger"@) == (14nat, '0', 't'));
    reveal_strlit("lfo1_amount");
    assert(mark("lfo1_amount"@) == (11nat, '1', 'o'));
    reveal_strlit("lfo1_rate");
    assert(mark("lfo1_rate"@) == (9nat, '1', 't'));
    reveal_strlit("master_gain");
    assert(mark("master_gain"@) == (11nat, 't', 'g'));
    reveal_strlit("mod_env_to_cutoff");
    assert(mark("mod_env_to_cutoff"@) == (17nat, '_', '_'));
    reveal_strlit("mod_lfo0_to_amp");
    assert(mark("mod_lfo0_to_amp"@) == (15nat, '_', '0'));
    reveal_strlit("mod_lfo0_to_cutoff");
    assert(mark("mod_lfo0_to_cutoff"@) == (18nat, '_', '0'));
    reveal_strlit("mod_lfo0_to_wtpos");
    assert(mark("mod_lfo0_to_wtpos"@) == (17nat, '_', '0'));
    reveal_strlit("mod_lfo1_to_amp");
    assert(mark("mod_lfo1_to_amp"@) == (15nat, '_', '1'));
    reveal_strlit("mod_lfo1_to_cutoff");
    assert(mark("mod_lfo1_to_cutoff"@) == (18nat, '_', '1'));
    reveal_strlit("mod_lfo1_to_wtpos");
    assert(mark("mod_lfo1_to_wtpos"@) == (17nat, '_', '1'));
    reveal_strlit("osc0_detune");
    assert(mark("osc0_detune"@) == (11nat, '0', 't'));
    reveal_strlit("osc0_gain");
    assert(mark("osc0_gain"@) == (9nat, '0', 'i'));
    reveal_strlit("osc0_volume");
    assert(mark("osc0_volume"@) == (11nat, '0', 'l'));
    reveal_strlit("osc0_waveform");
    assert(mark("osc0_waveform"@) == (13nat, '0', 'v'));
    reveal_strlit("osc1_detune");
    assert(mark("osc1_detune"@) == (11nat, '1', 't'));
    reveal_strlit("osc1_gain");
    assert(mark("osc1_gain"@) == (9nat, '1', 'i'));
    reveal_strlit("osc1_volume");
    assert(mark("osc1_volume"@) == (11nat, '1', 'l'));
    reveal_strlit("osc1_waveform");
    assert(mark("osc1_waveform"@) == (13nat, '1', 'v'));
}

} // verus!
