//! Fixed-length wavetables and the resampling that fills them.
//!
//! A table always holds [`WAVETABLE_SIZE`] samples. A source of any other
//! length is stretched or squeezed onto the table by linear interpolation:
//! entry `i` of the table is blended from the two source slots that
//! position `i * len / WAVETABLE_SIZE` of the source falls between. Which
//! slots those are, and with which weight, is decided here in integers; the
//! blending of two samples is the caller's arithmetic.

use vstd::prelude::*;
use crate::ring::next_slot;

verus! {

/// The number of samples in every wavetable.
pub const WAVETABLE_SIZE: usize = 2048;

/// The number of leading samples of a table that a preset carries.
pub const SNAPSHOT_SIZE: usize = 256;

/// How one table entry is made from a source: `weight` parts in
/// [`WAVETABLE_SIZE`] of the sample in slot `upper`, the rest from the
/// sample in slot `lower`.
#[derive(Clone, Copy, Debug, PartialEq, Eq, Structural)]
pub struct Blend {
    pub lower: usize,
    pub upper: usize,
    pub weight: usize,
}

/// The source slot at or below position `i * len / WAVETABLE_SIZE`.
pub open spec fn lower_slot(i: int, len: int) -> int {
    (i * len) / (WAVETABLE_SIZE as int)
}

/// The slot after `lower_slot`, wrapping to the start of the source.
pub open spec fn upper_slot(i: int, len: int) -> int {
    next_slot(lower_slot(i, len), len)
}

/// How far position `i * len / WAVETABLE_SIZE` lies above `lower_slot`, in
/// parts of [`WAVETABLE_SIZE`].
pub open spec fn upper_weight(i: int, len: int) -> int {
    (i * len) % (WAVETABLE_SIZE as int)
}

/// Whether `blend` is the blend for entry `i` of a table made from a source
/// of `len` samples.
pub open spec fn is_blend_at(blend: Blend, i: int, len: int) -> bool {
    &&& blend.lower == lower_slot(i, len)
    &&& blend.upper == upper_slot(i, len)
    &&& blend.weight == upper_weight(i, len)
}

/// The blend for entry `i` of a table made from a source of `len` samples;
/// `None` if there is no such entry or the source is empty.
pub fn blend_at(i: usize, len: usize) -> (blend: Option<Blend>)
    ensures
        blend is Some <==> i < WAVETABLE_SIZE && len > 0,
        blend matches Some(b) ==> {
            &&& is_blend_at(b, i as int, len as int)
            &&& b.lower < len
            &&& b.upper < len
            &&& b.weight < WAVETABLE_SIZE
        },
{
    if i >= WAVETABLE_SIZE || len == 0 {
        return None;
    }
    proof {
        blends_stay_inside(i as int, len as int);
        assert(0 <= (i as int) * (len as int) < 2048 * 0x1_0000_0000_0000_0000) by (nonlinear_arith)
            requires
                0 <= i < 2048,
                0 < len < 0x1_0000_0000_0000_0000,
        ;
    }
    let position: u128 = (i as u128) * (len as u128);
    let lower = (position / 2048) as usize;
    let weight = (position % 2048) as usize;
    let upper = if lower + 1 == len {
        0
    } else {
        lower + 1
    };
    Some(Blend { lower, upper, weight })
}

/// Every blend reads inside its source, and its weight is a proper
/// fraction of [`WAVETABLE_SIZE`].
pub proof fn blends_stay_inside(i: int, len: int)
    requires
        0 <= i < WAVETABLE_SIZE,
        len > 0,
    ensures
        0 <= lower_slot(i, len) < len,
        0 <= upper_slot(i, len) < len,
        0 <= upper_weight(i, len) < WAVETABLE_SIZE,
        i * len == lower_slot(i, len) * WAVETABLE_SIZE + upper_weight(i, len),
{
    let p = i * len;
    assert(0 <= p && p < 2048 * len) by (nonlinear_arith)
        requires
            0 <= i < 2048,
            len > 0,
            p == i * len,
    ;
    vstd::arithmetic::div_mod::lemma_fundamental_div_mod(p, 2048);
    vstd::arithmetic::div_mod::lemma_mod_pos_bound(p, 2048);
    vstd::arithmetic::div_mod::lemma_div_pos_is_pos(p, 2048);
    assert(p / 2048 < len) by (nonlinear_arith)
        requires
            p == 2048 * (p / 2048) + p % 2048,
            0 <= p % 2048,
            p < 2048 * len,
    ;
}

/// The table starts where the source starts: its first entry is the first
/// source sample, unblended.
pub proof fn first_blend_is_source_start(len: int)
    requires
        len > 0,
    ensures
        lower_slot(0, len) == 0,
        upper_weight(0, len) == 0,
{
    assert(0 * len == 0) by (nonlinear_arith);
}

/// The table ends one table step before the end of the source: its last
/// entry lies at position `len - len / WAVETABLE_SIZE` of the source, in
/// its last slot whenever the source is no longer than the table.
pub proof fn last_blend_is_source_end(len: int)
    requires
        len > 0,
    ensures
        (WAVETABLE_SIZE - 1) * len == lower_slot(WAVETABLE_SIZE - 1, len) * WAVETABLE_SIZE
            + upper_weight(WAVETABLE_SIZE - 1, len),
        len <= WAVETABLE_SIZE ==> lower_slot(WAVETABLE_SIZE - 1, len) == len - 1,
        len <= WAVETABLE_SIZE ==> upper_slot(WAVETABLE_SIZE - 1, len) == 0,
        len <= WAVETABLE_SIZE ==> upper_weight(WAVETABLE_SIZE - 1, len) == WAVETABLE_SIZE - len,
{
    blends_stay_inside(WAVETABLE_SIZE - 1, len);
    if len <= WAVETABLE_SIZE {
        assert(2047 * len == (len - 1) * 2048 + (2048 - len)) by (nonlinear_arith);
        vstd::arithmetic::div_mod::lemma_fundamental_div_mod_converse(
            2047 * len,
            2048,
            len - 1,
            2048 - len,
        );
    }
}

/// A source that already has the length of a table is taken over sample by
/// sample.
pub proof fn same_length_is_copied(i: int)
    requires
        0 <= i < WAVETABLE_SIZE,
    ensures
        lower_slot(i, WAVETABLE_SIZE as int) == i,
        upper_weight(i, WAVETABLE_SIZE as int) == 0,
{
    vstd::arithmetic::div_mod::lemma_fundamental_div_mod_converse(i * 2048, 2048, i, 0);
}

/// A table of exactly [`WAVETABLE_SIZE`] samples.
pub struct Wavetable<S> {
    samples: Vec<S>,
}

impl<S> Wavetable<S> {
    #[verifier::type_invariant]
    spec fn inv(self) -> bool {
        self.samples@.len() == WAVETABLE_SIZE
    }

    /// The samples of the table, in order.
    pub closed spec fn view(&self) -> Seq<S> {
        self.samples@
    }
}

/// Whether `table` is `source` resampled with `mix`: an entry that falls
/// exactly on a source slot is the sample in that slot, and every other
/// entry is what `mix` returned for the two source samples and the weight
/// of its blend.
pub open spec fn is_resampled<S, F: Fn(S, S, usize) -> S>(
    table: Seq<S>,
    source: Seq<S>,
    mix: F,
) -> bool {
    &&& table.len() == WAVETABLE_SIZE
    &&& forall|i: int|
        0 <= i < WAVETABLE_SIZE ==> if upper_weight(i, source.len() as int) == 0 {
            #[trigger] table[i] == source[lower_slot(i, source.len() as int)]
        } else {
            call_ensures(
                mix,
                (
                    source[lower_slot(i, source.len() as int)],
                    source[upper_slot(i, source.len() as int)],
                    upper_weight(i, source.len() as int) as usize,
                ),
                table[i],
            )
        }
}

/// A table resampled from a source of any length is a full table whose
/// first entry is the first source sample. Its last entry lies one table
/// step before the end of the source: it is the last source sample if the
/// source is as long as the table or a whole multiple of it, and else the
/// blend of the two samples around that position.
pub proof fn resampled_ends<S, F: Fn(S, S, usize) -> S>(table: Seq<S>, source: Seq<S>, mix: F)
    requires
        source.len() > 0,
        is_resampled(table, source, mix),
    ensures
        table.len() == WAVETABLE_SIZE,
        table[0] == source[0],
        0 <= lower_slot(WAVETABLE_SIZE - 1, source.len() as int) < source.len(),
        0 <= upper_slot(WAVETABLE_SIZE - 1, source.len() as int) < source.len(),
        if upper_weight(WAVETABLE_SIZE - 1, source.len() as int) == 0 {
            table[WAVETABLE_SIZE - 1] == source[lower_slot(WAVETABLE_SIZE - 1, source.len() as int)]
        } else {
            call_ensures(
                mix,
                (
                    source[lower_slot(WAVETABLE_SIZE - 1, source.len() as int)],
                    source[upper_slot(WAVETABLE_SIZE - 1, source.len() as int)],
                    upper_weight(WAVETABLE_SIZE - 1, source.len() as int) as usize,
                ),
                table[WAVETABLE_SIZE - 1],
            )
        },
{
    first_blend_is_source_start(source.len() as int);
    blends_stay_inside(WAVETABLE_SIZE - 1, source.len() as int);
}

/// A source that already has the length of a table becomes the table,
/// sample by sample, whatever `mix` does.
pub proof fn same_length_is_taken_over<S, F: Fn(S, S, usize) -> S>(
    table: Seq<S>,
    source: Seq<S>,
    mix: F,
)
    requires
        source.len() == WAVETABLE_SIZE,
        is_resampled(table, source, mix),
    ensures
        table == source,
{
    assert forall|i: int| 0 <= i < WAVETABLE_SIZE implies table[i] == source[i] by {
        same_length_is_copied(i);
    }
    assert(table =~= source);
}

impl<S: Copy> Wavetable<S> {
    /// A table in which every sample is `x`.
    pub fn filled(x: S) -> (table: Self)
        ensures
            table@ == Seq::new(WAVETABLE_SIZE as nat, |i: int| x),
    {
        let mut samples: Vec<S> = Vec::with_capacity(WAVETABLE_SIZE);
        let mut i: usize = 0;
        while i < WAVETABLE_SIZE
            invariant
                i <= WAVETABLE_SIZE,
                samples@.len() == i,
                forall|k: int| 0 <= k < i ==> samples@[k] == x,
            decreases WAVETABLE_SIZE - i,
        {
            samples.push(x);
            i += 1;
        }
        assert(samples@ =~= Seq::new(WAVETABLE_SIZE as nat, |i: int| x));
        Wavetable { samples }
    }

    /// Takes `samples` as a table if there are exactly [`WAVETABLE_SIZE`]
    /// of them.
    pub fn from_samples(samples: Vec<S>) -> (table: Option<Self>)
        ensures
            table is Some <==> samples@.len() == WAVETABLE_SIZE,
            table matches Some(t) ==> t@ == samples@,
    {
        if samples.len() == WAVETABLE_SIZE {
            Some(Wavetable { samples })
        } else {
            None
        }
    }

    /// Resamples `source` to a table. An entry that falls exactly on a
    /// source slot takes the sample in that slot; for every other entry
    /// `mix(lower, upper, weight)` is called for the blend, `weight`
    /// counting the parts in [`WAVETABLE_SIZE`] that `upper` contributes.
    /// An empty source gives no table.
    pub fn resample<F: Fn(S, S, usize) -> S>(source: &Vec<S>, mix: F) -> (table: Option<Self>)
        requires
            forall|a: S, b: S, w: usize| w < WAVETABLE_SIZE ==> call_requires(mix, (a, b, w)),
        ensures
            table is Some <==> source@.len() > 0,
            table matches Some(t) ==> is_resampled(t@, source@, mix),
    {
        let len = source.len();
        if len == 0 {
            return None;
        }
        let mut samples: Vec<S> = Vec::with_capacity(WAVETABLE_SIZE);
        let mut i: usize = 0;
        while i < WAVETABLE_SIZE
            invariant
                i <= WAVETABLE_SIZE,
                len == source@.len(),
                len > 0,
                samples@.len() == i,
                forall|a: S, b: S, w: usize| w < WAVETABLE_SIZE ==> call_requires(mix, (a, b, w)),
                forall|k: int|
                    0 <= k < i ==> if upper_weight(k, len as int) == 0 {
                        #[trigger] samples@[k] == source@[lower_slot(k, len as int)]
                    } else {
                        call_ensures(
                            mix,
                            (
                                source@[lower_slot(k, len as int)],
                                source@[upper_slot(k, len as int)],
                                upper_weight(k, len as int) as usize,
                            ),
                            samples@[k],
                        )
                    },
            decreases WAVETABLE_SIZE - i,
        {
            let blend = blend_at(i, len);
            match blend {
                Some(b) => {
                    let x = if b.weight == 0 {
                        source[b.lower]
                    } else {
                        mix(source[b.lower], source[b.upper], b.weight)
                    };
                    samples.push(x);
                },
                None => {
                    assert(false);
                },
            }
            i += 1;
        }
        Some(Wavetable { samples })
    }

    /// The two neighbouring samples that a read at `position` falls
    /// between: the sample in slot `position`, counted around the table,
    /// and the sample in the slot after it, which for the last slot is the
    /// first.
    pub fn around(&self, position: usize) -> (pair: (S, S))
        ensures
            pair.0 == self@[(position % WAVETABLE_SIZE) as int],
            pair.1 == self@[next_slot((position % WAVETABLE_SIZE) as int, WAVETABLE_SIZE as int)],
    {
        proof {
            use_type_invariant(self);
        }
        let lower = position % WAVETABLE_SIZE;
        let upper = if lower + 1 == WAVETABLE_SIZE {
            0
        } else {
            lower + 1
        };
        (self.samples[lower], self.samples[upper])
    }

    /// A copy of the whole table.
    pub fn to_vec(&self) -> (samples: Vec<S>)
        ensures
            samples@ == self@,
            samples@.len() == WAVETABLE_SIZE,
    {
        proof {
            use_type_invariant(self);
        }
        self.leading(WAVETABLE_SIZE)
    }

    /// A copy of the first [`SNAPSHOT_SIZE`] samples, as a preset carries
    /// them.
    pub fn snapshot(&self) -> (samples: Vec<S>)
        ensures
            samples@ == self@.subrange(0, SNAPSHOT_SIZE as int),
    {
        proof {
            use_type_invariant(self);
        }
        self.leading(SNAPSHOT_SIZE)
    }

    /// A copy of the first `count` samples.
    fn leading(&self, count: usize) -> (samples: Vec<S>)
        requires
            count <= WAVETABLE_SIZE,
        ensures
            self@.len() == WAVETABLE_SIZE,
            samples@ == self@.subrange(0, count as int),
    {
        proof {
            use_type_invariant(self);
        }
        let mut samples: Vec<S> = Vec::with_capacity(count);
        let mut i: usize = 0;
        while i < count
            invariant
                i <= count,
                count <= WAVETABLE_SIZE,
                self.samples@.len() == WAVETABLE_SIZE,
                samples@.len() == i,
                forall|k: int| 0 <= k < i ==> samples@[k] == self.samples@[k],
            decreases count - i,
        {
            samples.push(self.samples[i]);
            i += 1;
        }
        assert(samples@ =~= self@.subrange(0, count as int));
        samples
    }
}

/// The number of oscillators, each with a wavetable of its own.
pub const OSCILLATORS: usize = 2;

/// The wavetables of the two oscillators.
pub struct OscTables<S> {
    first: Wavetable<S>,
    second: Wavetable<S>,
}

impl<S: Copy> OscTables<S> {
    /// The table of oscillator `osc`; only meaningful for the two
    /// oscillators there are.
    pub closed spec fn table_of(&self, osc: int) -> Seq<S> {
        if osc == 0 {
            self.first@
        } else {
            self.second@
        }
    }

    /// Two oscillators with the tables given.
    pub fn new(first: Wavetable<S>, second: Wavetable<S>) -> (tables: Self)
        ensures
            tables.table_of(0) == first@,
            tables.table_of(1) == second@,
    {
        OscTables { first, second }
    }

    /// Gives oscillator `osc` a new table, resampled from `source` with
    /// `mix` (see [`Wavetable::resample`]). Nothing changes if there is no
    /// such oscillator or the source is empty; the result tells whether a
    /// table was replaced. The other oscillator keeps its table either way.
    pub fn set_wavetable<F: Fn(S, S, usize) -> S>(
        &mut self,
        osc: usize,
        source: &Vec<S>,
        mix: F,
    ) -> (replaced: bool)
        requires
            forall|a: S, b: S, w: usize| w < WAVETABLE_SIZE ==> call_requires(mix, (a, b, w)),
        ensures
            replaced == (osc < OSCILLATORS && source@.len() > 0),
            replaced ==> is_resampled(final(self).table_of(osc as int), source@, mix),
            !replaced ==> final(self).table_of(0) == old(self).table_of(0),
            !replaced ==> final(self).table_of(1) == old(self).table_of(1),
            replaced ==> final(self).table_of(1 - osc) == old(self).table_of(1 - osc),
    {
        if osc >= OSCILLATORS {
            return false;
        }
        match Wavetable::resample(source, mix) {
            Some(table) => {
                if osc == 0 {
                    self.first = table;
                } else {
                    self.second = table;
                }
                true
            },
            None => false,
        }
    }

    /// The table of oscillator `osc`, if there is such an oscillator.
    pub fn table(&self, osc: usize) -> (table: Option<&Wavetable<S>>)
        ensures
            table is Some <==> osc < OSCILLATORS,
            table matches Some(t) ==> t@ == self.table_of(osc as int),
    {
        if osc == 0 {
            Some(&self.first)
        } else if osc == 1 {
            Some(&self.second)
        } else {
            None
        }
    }

    /// A copy of the table of oscillator `osc`. Asking for an oscillator
    /// that is not there gives a table's length of `silence`.
    pub fn get_wavetable(&self, osc: usize, silence: S) -> (samples: Vec<S>)
        ensures
            samples@.len() == WAVETABLE_SIZE,
            osc < OSCILLATORS ==> samples@ == self.table_of(osc as int),
            osc >= OSCILLATORS ==> samples@ == Seq::new(WAVETABLE_SIZE as nat, |i: int| silence),
    {
        if osc == 0 {
            self.first.to_vec()
        } else if osc == 1 {
            self.second.to_vec()
        } else {
            Wavetable::filled(silence).to_vec()
        }
    }
}

} // verus!
