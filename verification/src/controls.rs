//! The settings of the controls.
//!
//! Every control of the engine has one setting at any time: a switch is on
//! or off, every other control holds a number of the caller's sample type.
//! The host sets controls by name, a preset writes some of them down, and
//! reading a preset sets again whatever it names. A control whose rule is
//! free takes the number it is sent as it is. For the others the caller's
//! arithmetic decides: `ranged` makes of a rule and a raw number the number
//! to store, and `is_on` tells whether a raw number switches a switch on.

use vstd::prelude::*;
use crate::params::{
    EnvControl,
    FilterControl,
    FxControl,
    LfoControl,
    OscControl,
    Param,
    Route,
    Slot,
};
use crate::preset::{preset_fields, preset_order, preset_order_is_plain};
use crate::rules::{Ratio, Rule};

verus! {

/// The number of controls.
pub const CONTROLS: usize = 30;

impl Param {
    /// The place of the control among all controls, from zero.
    pub open spec fn place_spec(self) -> int {
        match self {
            Param::MasterGain => 0,
            Param::Osc(Slot::First, OscControl::Waveform) => 1,
            Param::Osc(Slot::First, OscControl::Gain) => 2,
            Param::Osc(Slot::First, OscControl::Detune) => 3,
            Param::Osc(Slot::Second, OscControl::Waveform) => 4,
            Param::Osc(Slot::Second, OscControl::Gain) => 5,
            Param::Osc(Slot::Second, OscControl::Detune) => 6,
            Param::Env(EnvControl::Attack) => 7,
            Param::Env(EnvControl::Decay) => 8,
            Param::Env(EnvControl::Sustain) => 9,
            Param::Env(EnvControl::Release) => 10,
            Param::Filter(FilterControl::Cutoff) => 11,
            Param::Filter(FilterControl::Resonance) => 12,
            Param::Filter(FilterControl::Envelope) => 13,
            Param::Lfo(Slot::First, LfoControl::Rate) => 14,
            Param::Lfo(Slot::First, LfoControl::Amount) => 15,
            Param::Lfo(Slot::Second, LfoControl::Rate) => 16,
            Param::Lfo(Slot::Second, LfoControl::Amount) => 17,
            Param::Retrigger => 18,
            Param::Fx(FxControl::DelayTime) => 19,
            Param::Fx(FxControl::DelayFeedback) => 20,
            Param::Fx(FxControl::DelayWet) => 21,
            Param::Fx(FxControl::ReverbWet) => 22,
            Param::Mod(Route::Lfo0ToCutoff) => 23,
            Param::Mod(Route::Lfo1ToCutoff) => 24,
            Param::Mod(Route::EnvToCutoff) => 25,
            Param::Mod(Route::Lfo0ToAmp) => 26,
            Param::Mod(Route::Lfo1ToAmp) => 27,
            Param::Mod(Route::Lfo0ToWtpos) => 28,
            Param::Mod(Route::Lfo1ToWtpos) => 29,
        }
    }

    /// The control at `place`; places past the last count as the last.
    pub open spec fn at_spec(place: int) -> Param {
        if place == 0 {
            Param::MasterGain
        } else if place == 1 {
            Param::Osc(Slot::First, OscControl::Waveform)
        } else if place == 2 {
            Param::Osc(Slot::First, OscControl::Gain)
        } else if place == 3 {
            Param::Osc(Slot::First, OscControl::Detune)
        } else if place == 4 {
            Param::Osc(Slot::Second, OscControl::Waveform)
        } else if place == 5 {
            Param::Osc(Slot::Second, OscControl::Gain)
        } else if place == 6 {
            Param::Osc(Slot::Second, OscControl::Detune)
        } else if place == 7 {
            Param::Env(EnvControl::Attack)
        } else if place == 8 {
            Param::Env(EnvControl::Decay)
        } else if place == 9 {
            Param::Env(EnvControl::Sustain)
        } else if place == 10 {
            Param::Env(EnvControl::Release)
        } else if place == 11 {
            Param::Filter(FilterControl::Cutoff)
        } else if place == 12 {
            Param::Filter(FilterControl::Resonance)
        } else if place == 13 {
            Param::Filter(FilterControl::Envelope)
        } else if place == 14 {
            Param::Lfo(Slot::First, LfoControl::Rate)
        } else if place == 15 {
            Param::Lfo(Slot::First, LfoControl::Amount)
        } else if place == 16 {
            Param::Lfo(Slot::Second, LfoControl::Rate)
        } else if place == 17 {
            Param::Lfo(Slot::Second, LfoControl::Amount)
        } else if place == 18 {
            Param::Retrigger
        } else if place == 19 {
            Param::Fx(FxControl::DelayTime)
        } else if place == 20 {
            Param::Fx(FxControl::DelayFeedback)
        } else if place == 21 {
            Param::Fx(FxControl::DelayWet)
        } else if place == 22 {
            Param::Fx(FxControl::ReverbWet)
        } else if place == 23 {
            Param::Mod(Route::Lfo0ToCutoff)
        } else if place == 24 {
            Param::Mod(Route::Lfo1ToCutoff)
        } else if place == 25 {
            Param::Mod(Route::EnvToCutoff)
        } else if place == 26 {
            Param::Mod(Route::Lfo0ToAmp)
        } else if place == 27 {
            Param::Mod(Route::Lfo1ToAmp)
        } else if place == 28 {
            Param::Mod(Route::Lfo0ToWtpos)
        } else {
            Param::Mod(Route::Lfo1ToWtpos)
        }
    }

    /// The place of the control among all controls, from zero.
    pub fn place(&self) -> (place: usize)
        ensures
            place == self.place_spec(),
            place < CONTROLS,
    {
        match self {
            Param::MasterGain => 0,
            Param::Osc(Slot::First, OscControl::Waveform) => 1,
            Param::Osc(Slot::First, OscControl::Gain) => 2,
            Param::Osc(Slot::First, OscControl::Detune) => 3,
            Param::Osc(Slot::Second, OscControl::Waveform) => 4,
            Param::Osc(Slot::Second, OscControl::Gain) => 5,
            Param::Osc(Slot::Second, OscControl::Detune) => 6,
            Param::Env(EnvControl::Attack) => 7,
            Param::Env(EnvControl::Decay) => 8,
            Param::Env(EnvControl::Sustain) => 9,
            Param::Env(EnvControl::Release) => 10,
            Param::Filter(FilterControl::Cutoff) => 11,
            Param::Filter(FilterControl::Resonance) => 12,
            Param::Filter(FilterControl::Envelope) => 13,
            Param::Lfo(Slot::First, LfoControl::Rate) => 14,
            Param::Lfo(Slot::First, LfoControl::Amount) => 15,
            Param::Lfo(Slot::Second, LfoControl::Rate) => 16,
            Param::Lfo(Slot::Second, LfoControl::Amount) => 17,
            Param::Retrigger => 18,
            Param::Fx(FxControl::DelayTime) => 19,
            Param::Fx(FxControl::DelayFeedback) => 20,
            Param::Fx(FxControl::DelayWet) => 21,
            Param::Fx(FxControl::ReverbWet) => 22,
            Param::Mod(Route::Lfo0ToCutoff) => 23,
            Param::Mod(Route::Lfo1ToCutoff) => 24,
            Param::Mod(Route::EnvToCutoff) => 25,
            Param::Mod(Route::Lfo0ToAmp) => 26,
            Param::Mod(Route::Lfo1ToAmp) => 27,
            Param::Mod(Route::Lfo0ToWtpos) => 28,
            Param::Mod(Route::Lfo1ToWtpos) => 29,
        }
    }

    /// The control at `place`, if there is one.
    pub fn at(place: usize) -> (param: Option<Param>)
        ensures
            param == if place < CONTROLS {
                Some(Param::at_spec(place as int))
            } else {
                None
            },
    {
        if place >= CONTROLS {
            return None;
        }
        Some(
            if place == 0 {
                Param::MasterGain
            } else if place == 1 {
                Param::Osc(Slot::First, OscControl::Waveform)
            } else if place == 2 {
                Param::Osc(Slot::First, OscControl::Gain)
            } else if place == 3 {
                Param::Osc(Slot::First, OscControl::Detune)
            } else if place == 4 {
                Param::Osc(Slot::Second, OscControl::Waveform)
            } else if place == 5 {
                Param::Osc(Slot::Second, OscControl::Gain)
            } else if place == 6 {
                Param::Osc(Slot::Second, OscControl::Detune)
            } else if place == 7 {
                Param::Env(EnvControl::Attack)
            } else if place == 8 {
                Param::Env(EnvControl::Decay)
            } else if place == 9 {
                Param::Env(EnvControl::Sustain)
            } else if place == 10 {
                Param::Env(EnvControl::Release)
            } else if place == 11 {
                Param::Filter(FilterControl::Cutoff)
            } else if place == 12 {
                Param::Filter(FilterControl::Resonance)
            } else if place == 13 {
                Param::Filter(FilterControl::Envelope)
            } else if place == 14 {
                Param::Lfo(Slot::First, LfoControl::Rate)
            } else if place == 15 {
                Param::Lfo(Slot::First, LfoControl::Amount)
            } else if place == 16 {
                Param::Lfo(Slot::Second, LfoControl::Rate)
            } else if place == 17 {
                Param::Lfo(Slot::Second, LfoControl::Amount)
            } else if place == 18 {
                Param::Retrigger
            } else if place == 19 {
                Param::Fx(FxControl::DelayTime)
            } else if place == 20 {
                Param::Fx(FxControl::DelayFeedback)
            } else if place == 21 {
                Param::Fx(FxControl::DelayWet)
            } else if place == 22 {
                Param::Fx(FxControl::ReverbWet)
            } else if place == 23 {
                Param::Mod(Route::Lfo0ToCutoff)
            } else if place == 24 {
                Param::Mod(Route::Lfo1ToCutoff)
            } else if place == 25 {
                Param::Mod(Route::EnvToCutoff)
            } else if place == 26 {
                Param::Mod(Route::Lfo0ToAmp)
            } else if place == 27 {
                Param::Mod(Route::Lfo1ToAmp)
            } else if place == 28 {
                Param::Mod(Route::Lfo0ToWtpos)
            } else {
                Param::Mod(Route::Lfo1ToWtpos)
            },
        )
    }

    /// Every control has a place of its own, and is the control at its
    /// place.
    pub proof fn places_are_distinct(self)
        ensures
            0 <= self.place_spec() < CONTROLS,
            Param::at_spec(self.place_spec()) == self,
    {
    }
}

/// What a control is set to.
#[derive(Clone, Copy, Debug, PartialEq)]
pub enum Setting<S> {
    /// The number a control holds.
    Number(S),
    /// Whether a switch is on.
    Switch(bool),
}

/// Whether `stored` is what control `p` starts with: a switch is on if its
/// starting value is not zero, and any other control holds what `convert`
/// makes of its starting value.
pub open spec fn starts<S, C: Fn(Ratio) -> S>(p: Param, stored: Setting<S>, convert: C) -> bool {
    if p.rule_spec() == Rule::Switch {
        stored == Setting::<S>::Switch(p.default_spec().num != 0)
    } else {
        stored matches Setting::Number(v) && call_ensures(convert, (p.default_spec(),), v)
    }
}

/// Whether `stored` is what control `p` takes when it is sent `raw`: a free
/// control the number itself, a switch what `is_on` says of the number,
/// and any other control what `ranged` makes of the number under its rule.
pub open spec fn takes<S, R: Fn(Rule, S) -> S, O: Fn(S) -> bool>(
    p: Param,
    raw: S,
    stored: Setting<S>,
    ranged: R,
    is_on: O,
) -> bool {
    if p.rule_spec() == Rule::Free {
        stored == Setting::Number(raw)
    } else if p.rule_spec() == Rule::Switch {
        stored matches Setting::Switch(on) && call_ensures(is_on, (raw,), on)
    } else {
        stored matches Setting::Number(v) && call_ensures(ranged, (p.rule_spec(), raw), v)
    }
}

/// The number a list of named entries gives for a control: that of the
/// last entry whose name stands for the control, if there is one. Entries
/// under names that stand for no control count for nothing.
pub open spec fn last_entry<S>(fields: Seq<(String, S)>, p: Param) -> Option<S>
    decreases fields.len(),
{
    if fields.len() == 0 {
        None
    } else if Param::of_name(fields.last().0@) == Some(p) {
        Some(fields.last().1)
    } else {
        last_entry(fields.drop_last(), p)
    }
}

/// Whether `fields` is what a preset lists of the settings `settings`:
/// every control of the preset order, under its name, with its number.
pub open spec fn is_export<S>(fields: Seq<(String, S)>, settings: Map<Param, Setting<S>>) -> bool {
    &&& fields.len() == preset_order().len()
    &&& forall|i: int|
        0 <= i < fields.len() ==> {
            &&& (#[trigger] fields[i]).0@ == preset_order()[i].name_spec()
            &&& settings[preset_order()[i]] == Setting::Number(fields[i].1)
        }
}

/// Whether `after` is what reading the entries `fields` makes of the
/// settings `before`: every control that has an entry is set to what it
/// takes from the number of its last entry, and every other control is as
/// it was.
pub open spec fn restored<S, R: Fn(Rule, S) -> S, O: Fn(S) -> bool>(
    before: Map<Param, Setting<S>>,
    after: Map<Param, Setting<S>>,
    fields: Seq<(String, S)>,
    ranged: R,
    is_on: O,
) -> bool {
    forall|p: Param|
        if last_entry(fields, p) is Some {
            takes(p, last_entry(fields, p).unwrap(), #[trigger] after[p], ranged, is_on)
        } else {
            after[p] == before[p]
        }
}

/// One setting for every control.
pub struct Controls<S> {
    numbers: Vec<S>,
    retrigger: bool,
    filter_envelope: bool,
}

impl<S> Controls<S> {
    #[verifier::type_invariant]
    spec fn inv(self) -> bool {
        self.numbers@.len() == CONTROLS
    }

    /// The setting of every control.
    pub closed spec fn view(&self) -> Map<Param, Setting<S>> {
        Map::new(
            |p: Param| true,
            |p: Param|
                if p == Param::Retrigger {
                    Setting::Switch(self.retrigger)
                } else if p == Param::Filter(FilterControl::Envelope) {
                    Setting::Switch(self.filter_envelope)
                } else {
                    Setting::Number(self.numbers@[p.place_spec()])
                },
        )
    }

    /// There is a setting for every control, and it is a switch exactly
    /// for the controls whose rule is [`Rule::Switch`].
    pub proof fn is_total(&self)
        ensures
            forall|p: Param| self@.dom().contains(p),
            forall|p: Param| (#[trigger] self@[p]) is Switch <==> p.rule_spec() == Rule::Switch,
    {
    }
}

impl<S: Copy> Controls<S> {
    /// Controls as a fresh engine has them: every switch as its starting
    /// value says, every other control holding what `convert` makes of its
    /// starting value.
    pub fn new<C: Fn(Ratio) -> S>(convert: C) -> (controls: Self)
        requires
            forall|r: Ratio| call_requires(convert, (r,)),
        ensures
            forall|p: Param| starts(p, #[trigger] controls@[p], convert),
    {
        let mut numbers: Vec<S> = Vec::with_capacity(CONTROLS);
        let mut place: usize = 0;
        while place < CONTROLS
            invariant
                place <= CONTROLS,
                numbers@.len() == place,
                forall|k: int|
                    0 <= k < place ==> call_ensures(
                        convert,
                        (Param::at_spec(k).default_spec(),),
                        #[trigger] numbers@[k],
                    ),
                forall|r: Ratio| call_requires(convert, (r,)),
            decreases CONTROLS - place,
        {
            match Param::at(place) {
                Some(p) => {
                    numbers.push(convert(p.default_value()));
                },
                None => {
                },
            }
            place += 1;
        }
        let controls = Controls {
            numbers,
            retrigger: Param::Retrigger.default_value().num != 0,
            filter_envelope: Param::Filter(FilterControl::Envelope).default_value().num != 0,
        };
        assert forall|p: Param| starts(p, #[trigger] controls@[p], convert) by {
            p.places_are_distinct();
        }
        controls
    }

    /// The setting of a control: a switch for a control whose rule is
    /// [`Rule::Switch`], a number for any other.
    pub fn get(&self, p: Param) -> (setting: Setting<S>)
        ensures
            setting == self@[p],
            setting is Switch <==> p.rule_spec() == Rule::Switch,
    {
        proof {
            use_type_invariant(self);
        }
        match p {
            Param::Retrigger => Setting::Switch(self.retrigger),
            Param::Filter(FilterControl::Envelope) => Setting::Switch(self.filter_envelope),
            _ => Setting::Number(self.numbers[p.place()]),
        }
    }

    /// Stores what a control takes.
    fn put(&mut self, p: Param, setting: Setting<S>)
        requires
            setting is Switch <==> p.rule_spec() == Rule::Switch,
        ensures
            final(self)@ == old(self)@.insert(p, setting),
    {
        proof {
            use_type_invariant(&*self);
            p.places_are_distinct();
        }
        match setting {
            Setting::Switch(on) => {
                match p {
                    Param::Retrigger => {
                        self.retrigger = on;
                    },
                    _ => {
                        self.filter_envelope = on;
                    },
                }
            },
            Setting::Number(v) => {
                let place = p.place();
                self.numbers[place] = v;
            },
        }
        proof {
            assert forall|q: Param| #[trigger]
                self@[q] == old(self)@.insert(p, setting)[q] by {
                q.places_are_distinct();
            }
            assert(self@ =~= old(self)@.insert(p, setting));
        }
    }

    /// Sends `raw` to a control, which stores what it takes of it.
    fn send<R: Fn(Rule, S) -> S, O: Fn(S) -> bool>(&mut self, p: Param, raw: S, ranged: &R, is_on: &O)
        requires
            forall|rule: Rule, v: S| call_requires(*ranged, (rule, v)),
            forall|v: S| call_requires(*is_on, (v,)),
        ensures
            takes(p, raw, final(self)@[p], *ranged, *is_on),
            final(self)@ == old(self)@.insert(p, final(self)@[p]),
    {
        let setting = match p.rule() {
            Rule::Free => Setting::Number(raw),
            Rule::Switch => Setting::Switch(is_on(raw)),
            rule => Setting::Number(ranged(rule, raw)),
        };
        self.put(p, setting);
    }

    /// Sets the control that `name` stands for, and tells which control
    /// that was. A free control takes `value` as it is, a switch is on if
    /// `is_on` says so of `value`, and any other control takes what
    /// `ranged` makes of `value` under its rule. A name that stands for no
    /// control changes nothing.
    pub fn set_parameter<R: Fn(Rule, S) -> S, O: Fn(S) -> bool>(
        &mut self,
        name: &str,
        value: S,
        ranged: R,
        is_on: O,
    ) -> (set: Option<Param>)
        requires
            forall|rule: Rule, v: S| call_requires(ranged, (rule, v)),
            forall|v: S| call_requires(is_on, (v,)),
        ensures
            set == Param::of_name(name@),
            set is None ==> final(self)@ == old(self)@,
            set matches Some(p) ==> {
                &&& takes(p, value, final(self)@[p], ranged, is_on)
                &&& final(self)@ == old(self)@.insert(p, final(self)@[p])
            },
    {
        match Param::from_name(name) {
            Some(p) => {
                self.send(p, value, &ranged, &is_on);
                Some(p)
            },
            None => None,
        }
    }

    /// What a preset lists: every control of the preset order, under its
    /// name, with the number it holds.
    pub fn export_preset(&self) -> (fields: Vec<(String, S)>)
        ensures
            is_export(fields@, self@),
    {
        let order = preset_fields();
        let mut fields: Vec<(String, S)> = Vec::with_capacity(order.len());
        let mut i: usize = 0;
        proof {
            preset_order_is_plain();
        }
        while i < order.len()
            invariant
                i <= order@.len(),
                order@ == preset_order(),
                fields@.len() == i,
                forall|k: int|
                    0 <= k < order@.len() ==> (#[trigger] order@[k]).rule_spec() != Rule::Switch,
                forall|k: int|
                    0 <= k < i ==> {
                        &&& (#[trigger] fields@[k]).0@ == order@[k].name_spec()
                        &&& self@[order@[k]] == Setting::Number(fields@[k].1)
                    },
            decreases order@.len() - i,
        {
            let p = order[i];
            match self.get(p) {
                Setting::Number(v) => {
                    fields.push((p.name().to_owned(), v));
                },
                Setting::Switch(_) => {
                    assert(false);
                },
            }
            i += 1;
        }
        fields
    }

    /// Reads the entries of a preset. An entry under a name that stands for
    /// a control sets that control as [`Controls::set_parameter`] does, a
    /// later entry for the same control replacing an earlier one. Entries
    /// under other names are passed over.
    pub fn import_preset<R: Fn(Rule, S) -> S, O: Fn(S) -> bool>(
        &mut self,
        fields: &Vec<(String, S)>,
        ranged: R,
        is_on: O,
    )
        requires
            forall|rule: Rule, v: S| call_requires(ranged, (rule, v)),
            forall|v: S| call_requires(is_on, (v,)),
        ensures
            restored(old(self)@, final(self)@, fields@, ranged, is_on),
    {
        let ghost before = self@;
        let mut i: usize = 0;
        proof {
            assert(fields@.take(0) =~= Seq::<(String, S)>::empty());
        }
        while i < fields.len()
            invariant
                i <= fields@.len(),
                restored(before, self@, fields@.take(i as int), ranged, is_on),
                forall|rule: Rule, v: S| call_requires(ranged, (rule, v)),
                forall|v: S| call_requires(is_on, (v,)),
            decreases fields@.len() - i,
        {
            let ghost earlier = self@;
            let raw = fields[i].1;
            match Param::from_name(fields[i].0.as_str()) {
                Some(p) => {
                    self.send(p, raw, &ranged, &is_on);
                },
                None => {
                },
            }
            proof {
                let now = fields@.take(i + 1);
                assert(now.drop_last() =~= fields@.take(i as int));
                assert(now.last() == fields@[i as int]);
                assert forall|q: Param|
                    if last_entry(now, q) is Some {
                        takes(q, last_entry(now, q).unwrap(), #[trigger] self@[q], ranged, is_on)
                    } else {
                        self@[q] == before[q]
                    } by {
                    // What held of `q` before this entry still holds if the entry is not for it.
                    let _ = earlier[q];
                }
            }
            i += 1;
        }
        proof {
            assert(fields@.take(fields@.len() as int) =~= fields@);
        }
    }
}

/// A preset gives for each control it lists the number the control held,
/// and nothing for any other control.
pub proof fn export_lists_each_value<S>(
    fields: Seq<(String, S)>,
    settings: Map<Param, Setting<S>>,
    p: Param,
)
    requires
        is_export(fields, settings),
    ensures
        preset_order().contains(p) ==> last_entry(fields, p) is Some && settings[p]
            == Setting::Number(last_entry(fields, p).unwrap()),
        !preset_order().contains(p) ==> last_entry(fields, p) is None,
{
    lemma_last_entry(fields, settings, p, fields.len() as int);
    assert(fields.take(fields.len() as int) =~= fields);
    assert(preset_order().take(preset_order().len() as int) =~= preset_order());
}

/// Among the first `n` entries of a preset the last one for a control is
/// the one with its number, if the control is among the first `n` of the
/// preset order.
proof fn lemma_last_entry<S>(
    fields: Seq<(String, S)>,
    settings: Map<Param, Setting<S>>,
    p: Param,
    n: int,
)
    requires
        is_export(fields, settings),
        0 <= n <= fields.len(),
    ensures
        preset_order().take(n).contains(p) ==> last_entry(fields.take(n), p) is Some && settings[p]
            == Setting::Number(last_entry(fields.take(n), p).unwrap()),
        !preset_order().take(n).contains(p) ==> last_entry(fields.take(n), p) is None,
    decreases n,
{
    let entries = fields.take(n);
    let order = preset_order().take(n);
    if n > 0 {
        lemma_last_entry(fields, settings, p, n - 1);
        assert(entries.drop_last() =~= fields.take(n - 1));
        assert(order.drop_last() =~= preset_order().take(n - 1));
        assert(entries.last() == fields[n - 1]);
        crate::params::name_round_trip(preset_order()[n - 1]);
        if order.last() == p {
            assert(order[n - 1] == p);
        } else if order.contains(p) {
            let k = choose|k: int| 0 <= k < order.len() && order[k] == p;
            assert(order.drop_last()[k] == p);
        } else {
            assert forall|k: int| 0 <= k < n - 1 implies order.drop_last()[k] != p by {
                assert(order[k] == order.drop_last()[k]);
            }
        }
    }
}

/// Writing a preset and reading it back. Every control that the preset
/// lists is set from the number that was written, whatever it held in
/// between, and the controls that the preset does not list are as they
/// were. A free control is then back at the number it held when the preset
/// was written. So is every other listed control if `ranged` hands on the
/// number that was written, as it does for a number that is in range; and
/// then reading a preset into the engine that wrote it changes nothing.
pub proof fn preset_round_trip<S, R: Fn(Rule, S) -> S, O: Fn(S) -> bool>(
    written: Map<Param, Setting<S>>,
    fields: Seq<(String, S)>,
    before: Map<Param, Setting<S>>,
    after: Map<Param, Setting<S>>,
    ranged: R,
    is_on: O,
)
    requires
        is_export(fields, written),
        restored(before, after, fields, ranged, is_on),
    ensures
        forall|p: Param| !preset_order().contains(p) ==> #[trigger] after[p] == before[p],
        forall|p: Param|
            preset_order().contains(p) && p.rule_spec() == Rule::Free ==> #[trigger] after[p]
                == written[p],
        (forall|p: Param, v: S, stored: S|
            preset_order().contains(p) && written[p] == Setting::Number(v) && call_ensures(
                ranged,
                (p.rule_spec(), v),
                stored,
            ) ==> stored == v) ==> (forall|p: Param|
            preset_order().contains(p) ==> #[trigger] after[p] == written[p]),
        (forall|p: Param, v: S, stored: S|
            preset_order().contains(p) && written[p] == Setting::Number(v) && call_ensures(
                ranged,
                (p.rule_spec(), v),
                stored,
            ) ==> stored == v) && before == written ==> (forall|p: Param| #[trigger]
            after[p] == before[p]),
{
    preset_order_is_plain();
    assert forall|p: Param| !preset_order().contains(p) implies #[trigger] after[p]
        == before[p] by {
        export_lists_each_value(fields, written, p);
    }
    assert forall|p: Param|
        preset_order().contains(p) && p.rule_spec() == Rule::Free implies #[trigger] after[p]
        == written[p] by {
        export_lists_each_value(fields, written, p);
    }
    if forall|p: Param, v: S, stored: S|
        preset_order().contains(p) && written[p] == Setting::Number(v) && call_ensures(
            ranged,
            (p.rule_spec(), v),
            stored,
        ) ==> stored == v {
        assert forall|p: Param| preset_order().contains(p) implies #[trigger] after[p]
            == written[p] by {
            export_lists_each_value(fields, written, p);
            let k = choose|k: int| 0 <= k < preset_order().len() && preset_order()[k] == p;
            assert(preset_order()[k].rule_spec() != Rule::Switch);
        }
    }
}

} // verus!
