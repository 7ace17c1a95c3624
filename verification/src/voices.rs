//! The bounded set of sounding voices.
//!
//! Voices are kept in the order in which their notes were struck. When the
//! bank is full the oldest voice makes room for a new one, and a voice
//! leaves the bank in the very step in which its envelope runs out, so a
//! voice found in the bank is never idle.

use vstd::prelude::*;
use crate::envelope::Stage;

verus! {

/// The most voices that can sound at once.
pub const MAX_VOICES: usize = 64;

/// One sounding note: its pitch, the stage of its envelope, and the numeric
/// state the caller renders it from.
pub struct Voice<P> {
    pub midi_note: u8,
    pub stage: Stage,
    pub tone: P,
}

/// The voices after a note has been struck: the new voice comes last, and a
/// full bank loses its oldest voice first.
pub open spec fn strike<P>(voices: Seq<Voice<P>>, voice: Voice<P>) -> Seq<Voice<P>> {
    if voices.len() >= MAX_VOICES {
        voices.drop_first().push(voice)
    } else {
        voices.push(voice)
    }
}

/// The voices after each of `struck` has been struck in turn.
pub open spec fn strike_all<P>(voices: Seq<Voice<P>>, struck: Seq<Voice<P>>) -> Seq<Voice<P>>
    decreases struck.len(),
{
    if struck.len() == 0 {
        voices
    } else {
        strike(strike_all(voices, struck.drop_last()), struck.last())
    }
}

/// A voice after the key of pitch `midi_note` has been released: a voice of
/// that pitch enters the release, any other is left alone.
pub open spec fn release_one<P>(voice: Voice<P>, midi_note: u8) -> Voice<P> {
    if voice.midi_note == midi_note {
        Voice { midi_note: voice.midi_note, stage: Stage::Release, tone: voice.tone }
    } else {
        voice
    }
}

/// The voices after the key of pitch `midi_note` has been released.
pub open spec fn release_all<P>(voices: Seq<Voice<P>>, midi_note: u8) -> Seq<Voice<P>> {
    Seq::new(voices.len(), |i: int| release_one(voices[i], midi_note))
}

/// A voice after one rendered sample: it carries the new tone, and its
/// envelope has ticked.
pub open spec fn stepped<P>(voice: Voice<P>, tone: P, reached: bool) -> Voice<P> {
    Voice { midi_note: voice.midi_note, stage: voice.stage.after_tick(reached), tone }
}

/// Whether no voice of the sequence is idle.
pub open spec fn all_sounding<P>(voices: Seq<Voice<P>>) -> bool {
    forall|i: int| 0 <= i < voices.len() ==> (#[trigger] voices[i]).stage != Stage::Idle
}

/// The voices of a sequence that are not idle, in their order.
pub open spec fn sounding<P>(voices: Seq<Voice<P>>) -> Seq<Voice<P>>
    decreases voices.len(),
{
    if voices.len() == 0 {
        voices
    } else if voices.last().stage == Stage::Idle {
        sounding(voices.drop_last())
    } else {
        sounding(voices.drop_last()).push(voices.last())
    }
}

/// The voices after each has rendered one sample: voice `i` carries the
/// tone `outcomes[i].1`, and its envelope has ticked with `outcomes[i].2`.
pub open spec fn stepped_all<X, P>(voices: Seq<Voice<P>>, outcomes: Seq<(X, P, bool)>) -> Seq<
    Voice<P>,
> {
    Seq::new(voices.len(), |i: int| stepped(voices[i], outcomes[i].1, outcomes[i].2))
}

/// Whether `after` and `heard` are what one rendered frame makes of the
/// voices `before`, the outcome of each voice being one that `voice_fn` may
/// return for it in `context`: every voice has been stepped once, those
/// that ran out are gone, and `heard` holds what each voice gave to be
/// heard, in the order of the voices before the frame.
pub open spec fn rendered<C, X, P, F: Fn(&C, &Voice<P>) -> (X, P, bool)>(
    before: Seq<Voice<P>>,
    after: Seq<Voice<P>>,
    heard: Seq<X>,
    context: C,
    voice_fn: F,
) -> bool {
    exists|outcomes: Seq<(X, P, bool)>|
        {
            &&& outcomes.len() == before.len()
            &&& forall|i: int|
                0 <= i < before.len() ==> call_ensures(
                    voice_fn,
                    (&context, &before[i]),
                    #[trigger] outcomes[i],
                )
            &&& after == sounding(stepped_all(before, outcomes))
            &&& heard == Seq::new(before.len(), |i: int| outcomes[i].0)
        }
}

/// The voices that are alive, oldest first.
pub struct VoiceBank<P> {
    voices: Vec<Voice<P>>,
}

impl<P> VoiceBank<P> {
    #[verifier::type_invariant]
    spec fn inv(self) -> bool {
        &&& self.voices@.len() <= MAX_VOICES
        &&& all_sounding(self.voices@)
    }

    /// The live voices, oldest first.
    pub closed spec fn view(&self) -> Seq<Voice<P>> {
        self.voices@
    }

    /// Moves the voices out, leaving the bank empty until they are put back.
    fn take_voices(&mut self) -> (voices: Vec<Voice<P>>)
        ensures
            voices@ == old(self).voices@,
            voices@.len() <= MAX_VOICES,
            all_sounding(voices@),
            final(self).voices@.len() == 0,
    {
        proof {
            use_type_invariant(&*self);
        }
        let mut voices: Vec<Voice<P>> = Vec::new();
        core::mem::swap(&mut self.voices, &mut voices);
        voices
    }

    /// An empty bank.
    pub fn new() -> (bank: Self)
        ensures
            bank@ == Seq::<Voice<P>>::empty(),
    {
        VoiceBank { voices: Vec::with_capacity(MAX_VOICES) }
    }

    /// The number of live voices; it never exceeds [`MAX_VOICES`].
    pub fn len(&self) -> (n: usize)
        ensures
            n == self@.len(),
            n <= MAX_VOICES,
    {
        proof {
            use_type_invariant(self);
        }
        self.voices.len()
    }

    /// Whether no voice is alive.
    pub fn is_empty(&self) -> (empty: bool)
        ensures
            empty == (self@.len() == 0),
    {
        self.voices.len() == 0
    }

    /// The voice at `index`, counted from the oldest; `None` past the end.
    pub fn voice(&self, index: usize) -> (v: Option<&Voice<P>>)
        ensures
            index < self@.len() ==> v == Some(&self@[index as int]),
            index >= self@.len() ==> v is None,
            v matches Some(voice) ==> voice.stage != Stage::Idle,
    {
        proof {
            use_type_invariant(self);
        }
        if index < self.voices.len() {
            Some(&self.voices[index])
        } else {
            None
        }
    }

    /// Strikes a note: a new voice in the attack stage joins as the
    /// youngest. A full bank drops its oldest voice to make room.
    pub fn note_on(&mut self, midi_note: u8, tone: P)
        ensures
            final(self)@ == strike(
                old(self)@,
                Voice { midi_note, stage: Stage::Attack, tone },
            ),
            final(self)@.len() <= MAX_VOICES,
    {
        proof {
            use_type_invariant(&*self);
        }
        let mut voices = self.take_voices();
        if voices.len() >= MAX_VOICES {
            voices.remove(0);
        }
        voices.push(Voice { midi_note, stage: Stage::start(), tone });
        self.voices = voices;
    }

    /// Releases a key: every live voice of that pitch enters the release
    /// stage. Voices of other pitches, and the order of all, are untouched.
    pub fn note_off(&mut self, midi_note: u8)
        ensures
            final(self)@ == release_all(old(self)@, midi_note),
    {
        let mut voices = self.take_voices();
        let ghost before = voices@;
        let n = voices.len();
        let mut i: usize = 0;
        while i < n
            invariant
                i <= n,
                n <= MAX_VOICES,
                voices@.len() == n,
                before.len() == n,
                forall|k: int| 0 <= k < i ==> voices@[k] == release_one(before[k], midi_note),
                forall|k: int| i <= k < n ==> voices@[k] == before[k],
                all_sounding(voices@),
            decreases n - i,
        {
            if voices[i].midi_note == midi_note {
                voices[i].stage = voices[i].stage.note_off();
            }
            i += 1;
        }
        assert(voices@ =~= release_all(before, midi_note));
        self.voices = voices;
    }

    /// Records one rendered sample of the voice at `index`: the voice takes
    /// the new `tone` and its envelope ticks, `reached` telling whether the
    /// level has arrived at the target of the current stage. A voice whose
    /// envelope runs out in this tick is removed at once, the others keeping
    /// their order; the result tells whether that happened, in which case
    /// the next voice now stands at `index`. An index past the end changes
    /// nothing.
    pub fn step(&mut self, index: usize, tone: P, reached: bool) -> (retired: bool)
        ensures
            index >= old(self)@.len() ==> !retired && final(self)@ == old(self)@,
            index < old(self)@.len() ==> {
                let next = stepped(old(self)@[index as int], tone, reached);
                &&& retired == (next.stage == Stage::Idle)
                &&& retired ==> final(self)@ == old(self)@.remove(index as int)
                &&& !retired ==> final(self)@ == old(self)@.update(index as int, next)
            },
    {
        proof {
            use_type_invariant(&*self);
        }
        if index >= self.voices.len() {
            return false;
        }
        let mut voices = self.take_voices();
        let ghost before = voices@;
        let next = voices[index].stage.tick(reached);
        let retired = next.is_finished();
        if retired {
            voices.remove(index);
        } else {
            voices[index].stage = next;
            voices[index].tone = tone;
            assert(voices@ =~= before.update(
                index as int,
                stepped(before[index as int], tone, reached),
            ));
        }
        self.voices = voices;
        retired
    }

    /// Renders one frame: calls `voice_fn` on every voice, oldest first,
    /// with the `context` given. The call returns what the voice gives to
    /// be heard, its new tone, and whether its envelope has reached the
    /// target of its stage. The voice is stepped with the latter two and
    /// dropped if its envelope has run out; the voices that stay keep their
    /// order, and none is added. `heard` is emptied and then filled with
    /// what the voices gave, one entry for each voice there was.
    pub fn render<C, X, F: Fn(&C, &Voice<P>) -> (X, P, bool)>(
        &mut self,
        context: &C,
        voice_fn: &F,
        heard: &mut Vec<X>,
    )
        requires
            forall|c: &C, v: &Voice<P>| v.stage != Stage::Idle ==> call_requires(*voice_fn, (c, v)),
        ensures
            rendered(old(self)@, final(self)@, final(heard)@, *context, *voice_fn),
            final(self)@.len() <= old(self)@.len(),
            final(heard)@.len() == old(self)@.len(),
    {
        let ghost before = self@;
        let ghost mut outcomes: Seq<(X, P, bool)> = Seq::empty();
        let mut i: usize = 0;
        heard.clear();
        proof {
            use_type_invariant(&*self);
            assert(self@.subrange(0, 0) =~= sounding(stepped_all(before.take(0), outcomes)));
        }
        loop
            invariant
                i <= self@.len(),
                i <= outcomes.len(),
                before.len() <= MAX_VOICES,
                outcomes.len() + (self@.len() - i) == before.len(),
                heard@.len() == outcomes.len(),
                forall|k: int| 0 <= k < outcomes.len() ==> #[trigger] heard@[k] == outcomes[k].0,
                forall|k: int|
                    0 <= k < outcomes.len() ==> call_ensures(
                        *voice_fn,
                        (context, &before[k]),
                        #[trigger] outcomes[k],
                    ),
                self@.subrange(0, i as int) == sounding(
                    stepped_all(before.take(outcomes.len() as int), outcomes),
                ),
                forall|j: int|
                    i <= j < self@.len() ==> #[trigger] self@[j] == before[outcomes.len() + j - i],
                forall|c: &C, v: &Voice<P>|
                    v.stage != Stage::Idle ==> call_requires(*voice_fn, (c, v)),
            ensures
                i == self@.len(),
                self@.len() <= before.len(),
                outcomes.len() == before.len(),
            decreases self@.len() - i,
        {
            let ghost now = self@;
            let ghost done = outcomes.len() as int;
            let ghost earlier_outcomes = outcomes;
            let outcome = match self.voice(i) {
                Some(voice) => voice_fn(context, voice),
                None => {
                    break ;
                },
            };
            proof {
                assert(now[i as int] == before[done]);
                outcomes = outcomes.push(outcome);
            }
            let (sample, tone, reached) = outcome;
            heard.push(sample);
            let retired = self.step(i, tone, reached);
            proof {
                let next = stepped(before[done], tone, reached);
                let earlier = stepped_all(before.take(done), earlier_outcomes);
                let later = stepped_all(before.take(done + 1), outcomes);
                assert(later.drop_last() =~= earlier);
                assert(later.last() == next);
                assert(outcomes.drop_last() =~= earlier_outcomes);
                if retired {
                    assert(self@.subrange(0, i as int) =~= now.subrange(0, i as int));
                    assert forall|j: int| i <= j < self@.len() implies #[trigger] self@[j]
                        == before[done + 1 + j - i] by {
                        assert(self@[j] == now[j + 1]);
                    }
                } else {
                    assert(self@.subrange(0, i + 1) =~= now.subrange(0, i as int).push(next));
                    assert forall|j: int| i + 1 <= j < self@.len() implies #[trigger] self@[j]
                        == before[done + 1 + j - (i + 1)] by {
                        assert(self@[j] == now[j]);
                    }
                }
            }
            if !retired {
                i += 1;
            }
        }
        proof {
            assert(self@.subrange(0, i as int) =~= self@);
            assert(before.take(before.len() as int) =~= before);
            assert(heard@ =~= Seq::new(before.len(), |i: int| outcomes[i].0));
        }
    }
}

/// Striking a note never makes a bank larger than [`MAX_VOICES`]: a bank
/// with room grows by one, a full bank stays full, and the new voice is the
/// youngest either way.
pub proof fn strike_keeps_bound<P>(voices: Seq<Voice<P>>, voice: Voice<P>)
    requires
        voices.len() <= MAX_VOICES,
    ensures
        strike(voices, voice).len() <= MAX_VOICES,
        strike(voices, voice).len() == if voices.len() == MAX_VOICES {
            MAX_VOICES as nat
        } else {
            voices.len() + 1
        },
        strike(voices, voice).last() == voice,
{
}

/// Striking any number of notes on an empty bank, with no voice retiring in
/// between, leaves exactly the youngest [`MAX_VOICES`] of them (all of them
/// if they are fewer), in the order in which they were struck.
pub proof fn oldest_leave_first<P>(struck: Seq<Voice<P>>)
    ensures
        strike_all(Seq::<Voice<P>>::empty(), struck).len() == if struck.len() <= MAX_VOICES {
            struck.len()
        } else {
            MAX_VOICES as nat
        },
        strike_all(Seq::<Voice<P>>::empty(), struck) == if struck.len() <= MAX_VOICES {
            struck
        } else {
            struck.subrange(struck.len() - MAX_VOICES, struck.len() as int)
        },
    decreases struck.len(),
{
    if struck.len() > 0 {
        let front = struck.drop_last();
        oldest_leave_first(front);
        let before = strike_all(Seq::<Voice<P>>::empty(), front);
        let after = strike(before, struck.last());
        if struck.len() <= MAX_VOICES {
            assert(after =~= struck);
        } else {
            assert(after =~= struck.subrange(struck.len() - MAX_VOICES, struck.len() as int));
        }
    } else {
        assert(strike_all(Seq::<Voice<P>>::empty(), struck) =~= struck);
    }
}

/// Releasing a key changes neither the number of voices nor their pitches
/// nor their tones, and releasing it twice is the same as releasing it once.
pub proof fn release_is_idempotent<P>(voices: Seq<Voice<P>>, midi_note: u8)
    ensures
        release_all(voices, midi_note).len() == voices.len(),
        release_all(release_all(voices, midi_note), midi_note) == release_all(voices, midi_note),
{
    assert(release_all(release_all(voices, midi_note), midi_note) =~= release_all(
        voices,
        midi_note,
    ));
}

/// A frame removes idle voices and nothing else: what is left is never
/// idle, and voices that all still sound are all kept, in their order.
pub proof fn sounding_drops_only_idle<P>(voices: Seq<Voice<P>>)
    ensures
        all_sounding(sounding(voices)),
        sounding(voices).len() <= voices.len(),
        all_sounding(voices) ==> sounding(voices) == voices,
    decreases voices.len(),
{
    if voices.len() > 0 {
        let front = voices.drop_last();
        sounding_drops_only_idle(front);
        if all_sounding(voices) {
            assert(voices.last() == voices[voices.len() - 1]);
            assert forall|i: int| 0 <= i < front.len() implies (#[trigger] front[i]).stage
                != Stage::Idle by {
                assert(front[i] == voices[i]);
            }
            assert(sounding(voices) =~= voices);
        }
    }
}

/// A note that is struck and released leaves the bank with the step in
/// which its level reaches silence, and the bank is then as large as it was
/// before the note was struck.
pub proof fn released_note_retires<P>(voices: Seq<Voice<P>>, midi_note: u8, tone: P, last_tone: P)
    requires
        voices.len() < MAX_VOICES,
    ensures
        ({
            let struck = strike(voices, Voice { midi_note, stage: Stage::Attack, tone });
            let released = release_all(struck, midi_note);
            let youngest = released.len() - 1;
            &&& released.len() == voices.len() + 1
            &&& released[youngest].stage == Stage::Release
            &&& stepped(released[youngest], last_tone, true).stage == Stage::Idle
            &&& released.remove(youngest) == release_all(voices, midi_note)
            &&& released.remove(youngest).len() == voices.len()
        }),
{
    let struck = strike(voices, Voice { midi_note, stage: Stage::Attack, tone });
    let released = release_all(struck, midi_note);
    assert(released.remove(released.len() - 1) =~= release_all(voices, midi_note));
}

/// A voice whose envelope runs out during a frame is gone at the end of
/// it: a frame of a single voice leaves the voice if its step is not idle,
/// and nothing if it is.
pub proof fn frame_of_one_voice<X, P>(voice: Voice<P>, heard: X, tone: P, reached: bool)
    ensures
        sounding(stepped_all(seq![voice], seq![(heard, tone, reached)])) == if stepped(
            voice,
            tone,
            reached,
        ).stage == Stage::Idle {
            Seq::<Voice<P>>::empty()
        } else {
            seq![stepped(voice, tone, reached)]
        },
{
    let all = stepped_all(seq![voice], seq![(heard, tone, reached)]);
    assert(all.len() == 1);
    assert(all.last() == stepped(voice, tone, reached));
    assert(all.drop_last() =~= Seq::<Voice<P>>::empty());
    assert(sounding(all.drop_last()) =~= Seq::<Voice<P>>::empty());
    if stepped(voice, tone, reached).stage != Stage::Idle {
        assert(sounding(all) =~= seq![stepped(voice, tone, reached)]);
    }
}

/// A frame adds no voice: what is left after it is no more than what there
/// was, and every voice left is one that there was, stepped once.
pub proof fn a_frame_adds_no_voice<X, P>(voices: Seq<Voice<P>>, outcomes: Seq<(X, P, bool)>)
    requires
        outcomes.len() == voices.len(),
    ensures
        sounding(stepped_all(voices, outcomes)).len() <= voices.len(),
        all_sounding(sounding(stepped_all(voices, outcomes))),
        forall|k: int|
            0 <= k < sounding(stepped_all(voices, outcomes)).len() ==> exists|i: int|
                0 <= i < voices.len() && #[trigger] sounding(stepped_all(voices, outcomes))[k]
                    == stepped(voices[i], outcomes[i].1, outcomes[i].2),
{
    let all = stepped_all(voices, outcomes);
    sounding_drops_only_idle(all);
    lemma_sounding_is_part(all);
    assert forall|k: int| 0 <= k < sounding(all).len() implies exists|i: int|
        0 <= i < voices.len() && #[trigger] sounding(all)[k] == stepped(
            voices[i],
            outcomes[i].1,
            outcomes[i].2,
        ) by {
        let i = choose|i: int| 0 <= i < all.len() && all[i] == sounding(all)[k];
        assert(all[i] == stepped(voices[i], outcomes[i].1, outcomes[i].2));
    }
}

/// Every voice that is left is one of those there were.
proof fn lemma_sounding_is_part<P>(voices: Seq<Voice<P>>)
    ensures
        forall|k: int|
            0 <= k < sounding(voices).len() ==> exists|i: int|
                0 <= i < voices.len() && voices[i] == #[trigger] sounding(voices)[k],
    decreases voices.len(),
{
    if voices.len() > 0 {
        let front = voices.drop_last();
        lemma_sounding_is_part(front);
        assert forall|k: int| 0 <= k < sounding(voices).len() implies exists|i: int|
            0 <= i < voices.len() && voices[i] == #[trigger] sounding(voices)[k] by {
            if k < sounding(front).len() {
                let i = choose|i: int| 0 <= i < front.len() && front[i] == sounding(front)[k];
                assert(voices[i] == front[i]);
            } else {
                assert(voices[voices.len() - 1] == sounding(voices)[k]);
            }
        }
    }
}

} // verus!
