//! The range of every control, and the value it starts with.
//!
//! Every control has a rule, which names the range that a value sent by
//! the host is brought into before the control takes it, and a value that
//! it starts with. Bounds and starting values are kept as fractions, which
//! say exactly which number is meant whatever the precision of the samples.

use vstd::prelude::*;
use crate::params::{EnvControl, FilterControl, FxControl, LfoControl, OscControl, Param, Route};

verus! {

/// The length of the delay line in seconds of audio, and with it the
/// longest delay time that can be set.
pub const DELAY_LINE_SECONDS: u32 = 5;

/// A fraction `num / den`.
#[derive(Clone, Copy, Debug, PartialEq, Eq, Structural)]
pub struct Ratio {
    pub num: u32,
    pub den: u32,
}

impl Ratio {
    /// Whether the fraction has a value, that is a denominator other than
    /// zero.
    pub open spec fn defined(self) -> bool {
        self.den > 0
    }

    /// Whether this fraction is no greater than `other`; both must be
    /// defined.
    pub open spec fn at_most(self, other: Ratio) -> bool {
        self.num * other.den <= other.num * self.den
    }
}

/// How a value is brought into range before a control takes it.
#[derive(Clone, Copy, Debug, PartialEq, Eq, Structural)]
pub enum Rule {
    /// The value is taken as it is.
    Free,
    /// A value below the bound is raised to it.
    AtLeast(Ratio),
    /// A value outside the two bounds is moved to the nearer one.
    Within(Ratio, Ratio),
    /// A frequency: raised to `floor` hertz if below it, and lowered to
    /// `share` of the sample rate if above that.
    Frequency { floor: Ratio, share: Ratio },
    /// Above one half means on, anything else off.
    Switch,
    /// The value is rounded to the nearest whole number, which selects a
    /// waveform.
    Selector,
}

impl Rule {
    /// Whether the bounds of the rule are defined and in order, so that
    /// there is a value that meets them.
    pub open spec fn sound(self) -> bool {
        match self {
            Rule::AtLeast(low) => low.defined(),
            Rule::Within(low, high) => low.defined() && high.defined() && low.at_most(high),
            Rule::Frequency { floor, share } => floor.defined() && share.defined(),
            Rule::Free | Rule::Switch | Rule::Selector => true,
        }
    }

    /// Whether `value` already lies in the range of the rule, so that the
    /// rule hands it on as it is. `rate` is the sample rate in hertz. A
    /// switch keeps zero and one, a selector the whole numbers that select
    /// a waveform of their own.
    pub open spec fn keeps(self, value: Ratio, rate: nat) -> bool {
        match self {
            Rule::Free => true,
            Rule::AtLeast(low) => low.at_most(value),
            Rule::Within(low, high) => low.at_most(value) && value.at_most(high),
            Rule::Frequency { floor, share } => floor.at_most(value) && value.num * share.den
                <= share.num * rate * value.den,
            Rule::Switch => value.den == 1 && value.num <= 1,
            Rule::Selector => value.den == 1 && value.num <= 5,
        }
    }
}

impl Param {
    /// How a value is brought into range before this control takes it.
    pub open spec fn rule_spec(self) -> Rule {
        match self {
            Param::Osc(_, OscControl::Waveform) => Rule::Selector,
            Param::Osc(_, OscControl::Gain) => Rule::Free,
            Param::Osc(_, OscControl::Detune) => Rule::Free,
            Param::Env(EnvControl::Sustain) => Rule::Within(
                Ratio { num: 0, den: 1 },
                Ratio { num: 1, den: 1 },
            ),
            Param::Env(_) => Rule::AtLeast(Ratio { num: 1, den: 10000 }),
            Param::Filter(FilterControl::Cutoff) => Rule::Frequency {
                floor: Ratio { num: 20, den: 1 },
                share: Ratio { num: 49, den: 100 },
            },
            Param::Filter(FilterControl::Resonance) => Rule::AtLeast(Ratio { num: 0, den: 1 }),
            Param::Filter(FilterControl::Envelope) => Rule::Switch,
            Param::Lfo(_, LfoControl::Rate) => Rule::AtLeast(Ratio { num: 0, den: 1 }),
            Param::Lfo(_, LfoControl::Amount) => Rule::Free,
            Param::Retrigger => Rule::Switch,
            Param::Fx(FxControl::DelayTime) => Rule::Within(
                Ratio { num: 0, den: 1 },
                Ratio { num: DELAY_LINE_SECONDS, den: 1 },
            ),
            Param::Fx(FxControl::DelayFeedback) => Rule::Within(
                Ratio { num: 0, den: 1 },
                Ratio { num: 99, den: 100 },
            ),
            Param::Fx(FxControl::DelayWet) => Rule::Within(
                Ratio { num: 0, den: 1 },
                Ratio { num: 1, den: 1 },
            ),
            Param::Fx(FxControl::ReverbWet) => Rule::Within(
                Ratio { num: 0, den: 1 },
                Ratio { num: 1, den: 1 },
            ),
            Param::MasterGain => Rule::Free,
            Param::Mod(_) => Rule::Free,
        }
    }

    /// How a value is brought into range before this control takes it.
    pub fn rule(&self) -> (rule: Rule)
        ensures
            rule == self.rule_spec(),
            rule.sound(),
    {
        match self {
            Param::Osc(_, OscControl::Waveform) => Rule::Selector,
            Param::Osc(_, OscControl::Gain) => Rule::Free,
            Param::Osc(_, OscControl::Detune) => Rule::Free,
            Param::Env(EnvControl::Sustain) => Rule::Within(
                Ratio { num: 0, den: 1 },
                Ratio { num: 1, den: 1 },
            ),
            Param::Env(_) => Rule::AtLeast(Ratio { num: 1, den: 10000 }),
            Param::Filter(FilterControl::Cutoff) => Rule::Frequency {
                floor: Ratio { num: 20, den: 1 },
                share: Ratio { num: 49, den: 100 },
            },
            Param::Filter(FilterControl::Resonance) => Rule::AtLeast(Ratio { num: 0, den: 1 }),
            Param::Filter(FilterControl::Envelope) => Rule::Switch,
            Param::Lfo(_, LfoControl::Rate) => Rule::AtLeast(Ratio { num: 0, den: 1 }),
            Param::Lfo(_, LfoControl::Amount) => Rule::Free,
            Param::Retrigger => Rule::Switch,
            Param::Fx(FxControl::DelayTime) => Rule::Within(
                Ratio { num: 0, den: 1 },
                Ratio { num: DELAY_LINE_SECONDS, den: 1 },
            ),
            Param::Fx(FxControl::DelayFeedback) => Rule::Within(
                Ratio { num: 0, den: 1 },
                Ratio { num: 99, den: 100 },
            ),
            Param::Fx(FxControl::DelayWet) => Rule::Within(
                Ratio { num: 0, den: 1 },
                Ratio { num: 1, den: 1 },
            ),
            Param::Fx(FxControl::ReverbWet) => Rule::Within(
                Ratio { num: 0, den: 1 },
                Ratio { num: 1, den: 1 },
            ),
            Param::MasterGain => Rule::Free,
            Param::Mod(_) => Rule::Free,
        }
    }

    /// The value the control has in a fresh engine. A switch that is on
    /// starts at one, and an oscillator starts on the selector of the saw.
    pub open spec fn default_spec(self) -> Ratio {
        match self {
            Param::Osc(_, OscControl::Waveform) => Ratio { num: 1, den: 1 },
            Param::Osc(_, OscControl::Gain) => Ratio { num: 8, den: 10 },
            Param::Osc(_, OscControl::Detune) => Ratio { num: 0, den: 1 },
            Param::Env(EnvControl::Attack) => Ratio { num: 1, den: 100 },
            Param::Env(EnvControl::Decay) => Ratio { num: 2, den: 10 },
            Param::Env(EnvControl::Sustain) => Ratio { num: 8, den: 10 },
            Param::Env(EnvControl::Release) => Ratio { num: 3, den: 10 },
            Param::Filter(FilterControl::Cutoff) => Ratio { num: 1200, den: 1 },
            Param::Filter(FilterControl::Resonance) => Ratio { num: 6, den: 10 },
            Param::Filter(FilterControl::Envelope) => Ratio { num: 1, den: 1 },
            Param::Lfo(_, LfoControl::Rate) => Ratio { num: 25, den: 10 },
            Param::Lfo(_, LfoControl::Amount) => Ratio { num: 0, den: 1 },
            Param::Retrigger => Ratio { num: 0, den: 1 },
            Param::Fx(FxControl::DelayTime) => Ratio { num: 3, den: 10 },
            Param::Fx(FxControl::DelayFeedback) => Ratio { num: 35, den: 100 },
            Param::Fx(FxControl::DelayWet) => Ratio { num: 35, den: 100 },
            Param::Fx(FxControl::ReverbWet) => Ratio { num: 35, den: 100 },
            Param::MasterGain => Ratio { num: 9, den: 10 },
            Param::Mod(Route::Lfo0ToCutoff) => Ratio { num: 3, den: 10 },
            Param::Mod(_) => Ratio { num: 0, den: 1 },
        }
    }

    /// The value the control has in a fresh engine.
    pub fn default_value(&self) -> (value: Ratio)
        ensures
            value == self.default_spec(),
            value.defined(),
    {
        match self {
            Param::Osc(_, OscControl::Waveform) => Ratio { num: 1, den: 1 },
            Param::Osc(_, OscControl::Gain) => Ratio { num: 8, den: 10 },
            Param::Osc(_, OscControl::Detune) => Ratio { num: 0, den: 1 },
            Param::Env(EnvControl::Attack) => Ratio { num: 1, den: 100 },
            Param::Env(EnvControl::Decay) => Ratio { num: 2, den: 10 },
            Param::Env(EnvControl::Sustain) => Ratio { num: 8, den: 10 },
            Param::Env(EnvControl::Release) => Ratio { num: 3, den: 10 },
            Param::Filter(FilterControl::Cutoff) => Ratio { num: 1200, den: 1 },
            Param::Filter(FilterControl::Resonance) => Ratio { num: 6, den: 10 },
            Param::Filter(FilterControl::Envelope) => Ratio { num: 1, den: 1 },
            Param::Lfo(_, LfoControl::Rate) => Ratio { num: 25, den: 10 },
            Param::Lfo(_, LfoControl::Amount) => Ratio { num: 0, den: 1 },
            Param::Retrigger => Ratio { num: 0, den: 1 },
            Param::Fx(FxControl::DelayTime) => Ratio { num: 3, den: 10 },
            Param::Fx(FxControl::DelayFeedback) => Ratio { num: 35, den: 100 },
            Param::Fx(FxControl::DelayWet) => Ratio { num: 35, den: 100 },
            Param::Fx(FxControl::ReverbWet) => Ratio { num: 35, den: 100 },
            Param::MasterGain => Ratio { num: 9, den: 10 },
            Param::Mod(Route::Lfo0ToCutoff) => Ratio { num: 3, den: 10 },
            Param::Mod(_) => Ratio { num: 0, den: 1 },
        }
    }
}

/// A quantity inside the engine that is held in a fixed range, whatever the
/// controls are set to.
#[derive(Clone, Copy, Debug, PartialEq, Eq, Structural)]
pub enum Limit {
    /// The gain of a voice: its envelope level times one plus the
    /// amplitude modulation.
    VoiceGain,
    /// The feedback gain of a comb of the reverb; it stays below one, so
    /// that every echo is weaker than the one before.
    CombFeedback,
    /// The factor by which the lines of the reverb are scaled.
    ReverbSize,
    /// The decay time of the reverb, in seconds.
    ReverbDecay,
    /// The corner frequency of the damping in the feedback path of the
    /// delay, in hertz.
    FeedbackTone,
}

impl Limit {
    /// The range the quantity is held in.
    pub open spec fn rule_spec(self) -> Rule {
        match self {
            Limit::VoiceGain => Rule::Within(Ratio { num: 0, den: 1 }, Ratio { num: 4, den: 1 }),
            Limit::CombFeedback => Rule::Within(
                Ratio { num: 1, den: 2 },
                Ratio { num: 98, den: 100 },
            ),
            Limit::ReverbSize => Rule::Within(Ratio { num: 1, den: 2 }, Ratio { num: 3, den: 2 }),
            Limit::ReverbDecay => Rule::Within(Ratio { num: 2, den: 10 }, Ratio { num: 8, den: 1 }),
            Limit::FeedbackTone => Rule::Within(
                Ratio { num: 500, den: 1 },
                Ratio { num: 12000, den: 1 },
            ),
        }
    }

    /// The range the quantity is held in.
    pub fn rule(&self) -> (rule: Rule)
        ensures
            rule == self.rule_spec(),
            rule.sound(),
    {
        match self {
            Limit::VoiceGain => Rule::Within(Ratio { num: 0, den: 1 }, Ratio { num: 4, den: 1 }),
            Limit::CombFeedback => Rule::Within(
                Ratio { num: 1, den: 2 },
                Ratio { num: 98, den: 100 },
            ),
            Limit::ReverbSize => Rule::Within(Ratio { num: 1, den: 2 }, Ratio { num: 3, den: 2 }),
            Limit::ReverbDecay => Rule::Within(Ratio { num: 2, den: 10 }, Ratio { num: 8, den: 1 }),
            Limit::FeedbackTone => Rule::Within(
                Ratio { num: 500, den: 1 },
                Ratio { num: 12000, den: 1 },
            ),
        }
    }
}

/// No feedback gain that the engine allows reaches one: neither that of the
/// delay, which the host sets, nor that of a comb.
pub proof fn feedback_stays_below_one()
    ensures
        Param::Fx(FxControl::DelayFeedback).rule_spec() matches Rule::Within(_, high)
            && high.num < high.den,
        Limit::CombFeedback.rule_spec() matches Rule::Within(_, high) && high.num < high.den,
{
}

/// Every control starts with a value that its own rule keeps, so a value
/// written down from a fresh engine and set again comes back unchanged. The
/// one condition is on the filter cutoff: it starts at 1200 hertz, which
/// the rule keeps only if that is no more than its share of the sample rate.
pub proof fn defaults_are_kept(p: Param, rate: nat)
    requires
        p == Param::Filter(FilterControl::Cutoff) ==> 49 * rate >= 120000,
    ensures
        p.default_spec().defined(),
        p.rule_spec().sound(),
        p.rule_spec().keeps(p.default_spec(), rate),
{
}

/// A fresh engine has one modulation route that acts, from the first LFO
/// to the filter cutoff; the depth of every other route starts at zero.
pub proof fn one_route_acts_at_the_start(route: Route)
    ensures
        Param::Mod(route).default_spec().num != 0 <==> route == Route::Lfo0ToCutoff,
{
}

/// At a sample rate too low for it the starting cutoff is out of range: the
/// rule would lower it.
pub proof fn low_rates_lower_the_cutoff(rate: nat)
    requires
        49 * rate < 120000,
    ensures
        !Param::Filter(FilterControl::Cutoff).rule_spec().keeps(
            Param::Filter(FilterControl::Cutoff).default_spec(),
            rate,
        ),
{
}

} // verus!
