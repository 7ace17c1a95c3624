//! The engine as a whole.
//!
//! The engine owns its controls, the wavetables of its oscillators and its
//! voices, and beside them whatever state the caller's signal chain keeps:
//! the phases of the LFOs, the memory of the filter, the lines of the delay
//! and the reverb. Each operation of the engine touches the part it is
//! about and leaves the others alone. Rendering steps the voices and moves
//! the signal chain on; it changes no control and no wavetable.

use vstd::prelude::*;
use crate::controls::{is_export, restored, starts, takes, Controls, Setting};
use crate::envelope::Stage;
use crate::params::Param;
use crate::preset::Preset;
use crate::rules::{Ratio, Rule};
use crate::voices::{release_all, rendered, strike, Voice, VoiceBank, MAX_VOICES};
use crate::wavetable::{
    is_resampled,
    OscTables,
    Wavetable,
    OSCILLATORS,
    SNAPSHOT_SIZE,
    WAVETABLE_SIZE,
};

verus! {

/// The engine: controls, wavetables and voices, and the state `effects` of
/// the caller's signal chain.
pub struct Synthesizer<S, P, E> {
    pub controls: Controls<S>,
    pub wavetables: OscTables<S>,
    pub voices: VoiceBank<P>,
    pub effects: E,
}

/// What a voice is rendered from beside its own tone: the controls, the
/// wavetables, and the state of the signal chain at the start of the frame.
pub struct Scene<'a, S, E> {
    pub controls: &'a Controls<S>,
    pub wavetables: &'a OscTables<S>,
    pub effects: &'a E,
}

/// Whether `n` counts one of the first `frames` frames.
pub open spec fn is_frame(n: int, frames: int) -> bool {
    0 <= n < frames
}

/// Whether the table `after` of oscillator `osc` is what reading the
/// wavetables `tables` of a preset makes of the table `before`: the samples
/// that the preset has for the oscillator, resampled with `mix`, or the
/// table as it was if the preset has none for it.
pub open spec fn table_restored<S, F: Fn(S, S, usize) -> S>(
    before: Seq<S>,
    after: Seq<S>,
    tables: Seq<Vec<S>>,
    osc: int,
    mix: F,
) -> bool {
    if osc < tables.len() && tables[osc]@.len() > 0 {
        is_resampled(after, tables[osc]@, mix)
    } else {
        after == before
    }
}

impl<S: Copy, P, E> Synthesizer<S, P, E> {
    /// A fresh engine: every control is at its starting value, a number
    /// being what `convert` makes of that value; the two oscillators have
    /// the tables given, and no voice sounds.
    pub fn new<C: Fn(Ratio) -> S>(
        convert: C,
        first: Wavetable<S>,
        second: Wavetable<S>,
        effects: E,
    ) -> (engine: Self)
        requires
            forall|r: Ratio| call_requires(convert, (r,)),
        ensures
            forall|p: Param| starts(p, #[trigger] engine.controls@[p], convert),
            engine.wavetables.table_of(0) == first@,
            engine.wavetables.table_of(1) == second@,
            engine.voices@ == Seq::<Voice<P>>::empty(),
            engine.effects == effects,
    {
        Synthesizer {
            controls: Controls::new(convert),
            wavetables: OscTables::new(first, second),
            voices: VoiceBank::new(),
            effects,
        }
    }

    /// Strikes a note: a new voice in the attack stage, with the tone
    /// given, joins as the youngest, and a full bank drops its oldest voice
    /// to make room. The result tells whether the first LFO is to start its
    /// cycle anew, which it is if the retrigger switch is on. Nothing but
    /// the voices changes.
    pub fn note_on(&mut self, midi_note: u8, tone: P) -> (restart_first_lfo: bool)
        ensures
            restart_first_lfo == (old(self).controls@[Param::Retrigger] == Setting::<S>::Switch(
                true,
            )),
            final(self).voices@ == strike(
                old(self).voices@,
                Voice { midi_note, stage: Stage::Attack, tone },
            ),
            final(self).voices@.len() <= MAX_VOICES,
            final(self).controls == old(self).controls,
            final(self).wavetables == old(self).wavetables,
            final(self).effects == old(self).effects,
    {
        self.voices.note_on(midi_note, tone);
        match self.controls.get(Param::Retrigger) {
            Setting::Switch(on) => on,
            Setting::Number(_) => false,
        }
    }

    /// Releases a key: every live voice of that pitch enters the release
    /// stage. Nothing but the voices changes.
    pub fn note_off(&mut self, midi_note: u8)
        ensures
            final(self).voices@ == release_all(old(self).voices@, midi_note),
            final(self).controls == old(self).controls,
            final(self).wavetables == old(self).wavetables,
            final(self).effects == old(self).effects,
    {
        self.voices.note_off(midi_note);
    }

    /// Sets the control that `name` stands for, and tells which control
    /// that was, so that the caller can bring up to date what it derives
    /// from it. A free control takes `value` as it is, a switch is on if
    /// `is_on` says so of `value`, and any other control takes what
    /// `ranged` makes of `value` under its rule. A name that stands for no
    /// control changes nothing.
    pub fn set_parameter<R: Fn(Rule, S) -> S, O: Fn(S) -> bool>(
        &mut self,
        name: &str,
        value: S,
        ranged: R,
        is_on: O,
    ) -> (set: Option<Param>)
        requires
            forall|rule: Rule, v: S| call_requires(ranged, (rule, v)),
            forall|v: S| call_requires(is_on, (v,)),
        ensures
            set == Param::of_name(name@),
            set is None ==> final(self).controls@ == old(self).controls@,
            set matches Some(p) ==> {
                &&& takes(p, value, final(self).controls@[p], ranged, is_on)
                &&& final(self).controls@ == old(self).controls@.insert(
                    p,
                    final(self).controls@[p],
                )
            },
            final(self).voices == old(self).voices,
            final(self).wavetables == old(self).wavetables,
            final(self).effects == old(self).effects,
    {
        self.controls.set_parameter(name, value, ranged, is_on)
    }

    /// Gives oscillator `osc` a new table, resampled from `source` with
    /// `mix`. Nothing changes if there is no such oscillator or the source
    /// is empty; the result tells whether a table was replaced.
    pub fn set_wavetable<F: Fn(S, S, usize) -> S>(
        &mut self,
        osc: usize,
        source: &Vec<S>,
        mix: F,
    ) -> (replaced: bool)
        requires
            forall|a: S, b: S, w: usize| w < WAVETABLE_SIZE ==> call_requires(mix, (a, b, w)),
        ensures
            replaced == (osc < OSCILLATORS && source@.len() > 0),
            replaced ==> is_resampled(final(self).wavetables.table_of(osc as int), source@, mix),
            replaced ==> final(self).wavetables.table_of(1 - osc) == old(self).wavetables.table_of(
                1 - osc,
            ),
            !replaced ==> final(self).wavetables.table_of(0) == old(self).wavetables.table_of(0),
            !replaced ==> final(self).wavetables.table_of(1) == old(self).wavetables.table_of(1),
            final(self).controls == old(self).controls,
            final(self).voices == old(self).voices,
            final(self).effects == old(self).effects,
    {
        self.wavetables.set_wavetable(osc, source, mix)
    }

    /// A copy of the table of oscillator `osc`. Asking for an oscillator
    /// that is not there gives a table's length of `silence`.
    pub fn get_wavetable(&self, osc: usize, silence: S) -> (samples: Vec<S>)
        ensures
            samples@.len() == WAVETABLE_SIZE,
            osc < OSCILLATORS ==> samples@ == self.wavetables.table_of(osc as int),
            osc >= OSCILLATORS ==> samples@ == Seq::new(WAVETABLE_SIZE as nat, |i: int| silence),
    {
        self.wavetables.get_wavetable(osc, silence)
    }

    /// Writes a preset: every control of the preset order, under its name,
    /// with the number it holds, and the leading samples of the table of
    /// each oscillator.
    pub fn export_preset(&self) -> (preset: Preset<S>)
        ensures
            is_export(preset.fields@, self.controls@),
            preset.wavetables@.len() == OSCILLATORS,
            preset.wavetables@[0]@ == self.wavetables.table_of(0).subrange(0, SNAPSHOT_SIZE as int),
            preset.wavetables@[1]@ == self.wavetables.table_of(1).subrange(0, SNAPSHOT_SIZE as int),
    {
        let fields = self.controls.export_preset();
        let mut wavetables: Vec<Vec<S>> = Vec::with_capacity(OSCILLATORS);
        let mut osc: usize = 0;
        while osc < OSCILLATORS
            invariant
                osc <= OSCILLATORS,
                wavetables@.len() == osc,
                forall|k: int|
                    0 <= k < osc ==> (#[trigger] wavetables@[k])@ == self.wavetables.table_of(
                        k,
                    ).subrange(0, SNAPSHOT_SIZE as int),
            decreases OSCILLATORS - osc,
        {
            match self.wavetables.table(osc) {
                Some(table) => {
                    wavetables.push(table.snapshot());
                },
                None => {
                },
            }
            osc += 1;
        }
        Preset { fields, wavetables }
    }

    /// Reads a preset. An entry under a name that stands for a control sets
    /// that control as [`Synthesizer::set_parameter`] does, a later entry
    /// replacing an earlier one, and entries under other names are passed
    /// over. An oscillator for which the preset has samples gets them as
    /// its table, resampled with `mix`; an oscillator for which it has none
    /// keeps its table. Voices and signal chain are not touched.
    pub fn import_preset<R: Fn(Rule, S) -> S, O: Fn(S) -> bool, F: Fn(S, S, usize) -> S + Copy>(
        &mut self,
        preset: &Preset<S>,
        ranged: R,
        is_on: O,
        mix: F,
    )
        requires
            forall|rule: Rule, v: S| call_requires(ranged, (rule, v)),
            forall|v: S| call_requires(is_on, (v,)),
            forall|a: S, b: S, w: usize| w < WAVETABLE_SIZE ==> call_requires(mix, (a, b, w)),
        ensures
            restored(old(self).controls@, final(self).controls@, preset.fields@, ranged, is_on),
            table_restored(
                old(self).wavetables.table_of(0),
                final(self).wavetables.table_of(0),
                preset.wavetables@,
                0,
                mix,
            ),
            table_restored(
                old(self).wavetables.table_of(1),
                final(self).wavetables.table_of(1),
                preset.wavetables@,
                1,
                mix,
            ),
            final(self).voices == old(self).voices,
            final(self).effects == old(self).effects,
    {
        self.controls.import_preset(&preset.fields, ranged, is_on);
        if preset.wavetables.len() > 0 {
            self.wavetables.set_wavetable(0, &preset.wavetables[0], mix);
        }
        if preset.wavetables.len() > 1 {
            self.wavetables.set_wavetable(1, &preset.wavetables[1], mix);
        }
    }

    /// Renders a block of `frames` samples. In every frame each voice is
    /// rendered once by `voice`, oldest first, from the scene at the start
    /// of the frame; the voice is stepped with what `voice` returns and
    /// dropped if its envelope has run out. Then `mixdown` makes the sample
    /// of the frame from what the voices gave, and moves the signal chain
    /// on. Frame `n` starts from the voices and the signal chain as frame
    /// `n - 1` left them. Rendering adds no voice and changes no control
    /// and no wavetable, and a block of no frames changes nothing at all.
    pub fn render_audio<
        V: Fn(&Scene<S, E>, &Voice<P>) -> (S, P, bool),
        M: Fn(&Controls<S>, &mut E, &Vec<S>) -> S,
    >(&mut self, frames: usize, voice: V, mixdown: M) -> (out: Vec<S>)
        requires
            forall|scene: &Scene<S, E>, v: &Voice<P>|
                v.stage != Stage::Idle ==> call_requires(voice, (scene, v)),
            forall|c: &Controls<S>, e: &mut E, heard: &Vec<S>| call_requires(mixdown, (c, e, heard)),
        ensures
            out@.len() == frames,
            final(self).controls == old(self).controls,
            final(self).wavetables == old(self).wavetables,
            final(self).voices@.len() <= old(self).voices@.len(),
            frames == 0 ==> final(self).voices@ == old(self).voices@ && final(self).effects == old(
                self,
            ).effects,
            exists|voices: Seq<Seq<Voice<P>>>, effects: Seq<E>|
                {
                    &&& voices.len() == frames + 1
                    &&& effects.len() == frames + 1
                    &&& voices[0] == old(self).voices@
                    &&& effects[0] == old(self).effects
                    &&& voices[frames as int] == final(self).voices@
                    &&& effects[frames as int] == final(self).effects
                    &&& forall|n: int| #[trigger]
                        is_frame(n, frames as int) ==> exists|heard: Vec<S>, e: &mut E|
                            rendered(
                                voices[n],
                                voices[n + 1],
                                heard@,
                                Scene {
                                    controls: &old(self).controls,
                                    wavetables: &old(self).wavetables,
                                    effects: &effects[n],
                                },
                                voice,
                            ) && *e == effects[n] && *final(e) == effects[n + 1]
                                && #[trigger] call_ensures(
                                mixdown,
                                (&old(self).controls, e, &heard),
                                out@[n],
                            )
                },
    {
        let mut out: Vec<S> = Vec::with_capacity(frames);
        let mut heard: Vec<S> = Vec::with_capacity(MAX_VOICES);
        let mut n: usize = 0;
        let ghost mut voices: Seq<Seq<Voice<P>>> = seq![self.voices@];
        let ghost mut effects: Seq<E> = seq![self.effects];
        while n < frames
            invariant
                n <= frames,
                out@.len() == n,
                self.controls == old(self).controls,
                self.wavetables == old(self).wavetables,
                self.voices@.len() <= old(self).voices@.len(),
                voices.len() == n + 1,
                effects.len() == n + 1,
                voices[0] == old(self).voices@,
                effects[0] == old(self).effects,
                voices[n as int] == self.voices@,
                effects[n as int] == self.effects,
                forall|k: int| #[trigger]
                    is_frame(k, n as int) ==> exists|heard: Vec<S>, e: &mut E|
                        rendered(
                            voices[k],
                            voices[k + 1],
                            heard@,
                            Scene {
                                controls: &old(self).controls,
                                wavetables: &old(self).wavetables,
                                effects: &effects[k],
                            },
                            voice,
                        ) && *e == effects[k] && *final(e) == effects[k + 1]
                            && #[trigger] call_ensures(
                            mixdown,
                            (&old(self).controls, e, &heard),
                            out@[k],
                        ),
                forall|scene: &Scene<S, E>, v: &Voice<P>|
                    v.stage != Stage::Idle ==> call_requires(voice, (scene, v)),
                forall|c: &Controls<S>, e: &mut E, heard: &Vec<S>|
                    call_requires(mixdown, (c, e, heard)),
            decreases frames - n,
        {
            let ghost earlier_voices = voices;
            let ghost earlier_effects = effects;
            let ghost earlier_out = out@;
            let scene = Scene {
                controls: &self.controls,
                wavetables: &self.wavetables,
                effects: &self.effects,
            };
            self.voices.render(&scene, &voice, &mut heard);
            let sample = mixdown(&self.controls, &mut self.effects, &heard);
            out.push(sample);
            proof {
                voices = voices.push(self.voices@);
                effects = effects.push(self.effects);
                assert forall|k: int| #[trigger] is_frame(k, n + 1) implies exists|
                    heard: Vec<S>,
                    e: &mut E,
                |
                    rendered(
                        voices[k],
                        voices[k + 1],
                        heard@,
                        Scene {
                            controls: &old(self).controls,
                            wavetables: &old(self).wavetables,
                            effects: &effects[k],
                        },
                        voice,
                    ) && *e == effects[k] && *final(e) == effects[k + 1]
                        && #[trigger] call_ensures(
                        mixdown,
                        (&old(self).controls, e, &heard),
                        out@[k],
                    ) by {
                    if k < n {
                        assert(is_frame(k, n as int));
                        assert(voices[k] == earlier_voices[k] && voices[k + 1] == earlier_voices[k
                            + 1]);
                        assert(effects[k] == earlier_effects[k] && effects[k + 1]
                            == earlier_effects[k + 1]);
                        assert(out@[k] == earlier_out[k]);
                        let (h, e) = choose|h: Vec<S>, e: &mut E|
                            rendered(
                                earlier_voices[k],
                                earlier_voices[k + 1],
                                h@,
                                Scene {
                                    controls: &old(self).controls,
                                    wavetables: &old(self).wavetables,
                                    effects: &earlier_effects[k],
                                },
                                voice,
                            ) && *e == earlier_effects[k] && *final(e) == earlier_effects[k + 1]
                                && #[trigger] call_ensures(
                                mixdown,
                                (&old(self).controls, e, &h),
                                earlier_out[k],
                            );
                        assert(call_ensures(mixdown, (&old(self).controls, e, &h), out@[k]));
                    } else {
                        assert(out@[k] == sample);
                        assert(voices[k] == earlier_voices[n as int]);
                        assert(voices[k + 1] == self.voices@);
                        assert(effects[k] == earlier_effects[n as int]);
                        assert(effects[k + 1] == self.effects);
                    }
                }
            }
            n += 1;
        }
        out
    }
}

} // verus!
