//! A circular line of samples with one cursor.
//!
//! The line is what the delay, the pre-delay, the combs and the all-pass
//! diffusers are built on. Its cursor marks the slot that the next write
//! goes to, which is also the slot that was written longest ago. The line is
//! never empty and its cursor is always inside it, also after a resize.

use vstd::prelude::*;
use vstd::arithmetic::div_mod::{
    lemma_fundamental_div_mod,
    lemma_fundamental_div_mod_converse,
    lemma_small_mod,
};

verus! {

/// The contents of a line: its slots in storage order, and the cursor.
pub struct Line<S> {
    pub slots: Seq<S>,
    pub cursor: int,
}

impl<S> Line<S> {
    /// A line has at least one slot, and its cursor points into it.
    pub open spec fn wf(self) -> bool {
        0 <= self.cursor < self.slots.len()
    }

    /// A line of `len` slots (one slot if `len` is zero) that all hold
    /// `fill`, with the cursor at the start.
    pub open spec fn filled(len: int, fill: S) -> Line<S> {
        Line { slots: Seq::new(floor_one(len) as nat, |i: int| fill), cursor: 0 }
    }

    /// The sample under the cursor: the one written longest ago.
    pub open spec fn head(self) -> S {
        self.slots[self.cursor]
    }

    /// The line after `x` has been written under the cursor and the cursor
    /// has moved on by one slot, wrapping at the end.
    pub open spec fn push(self, x: S) -> Line<S> {
        Line {
            slots: self.slots.update(self.cursor, x),
            cursor: next_slot(self.cursor, self.slots.len() as int),
        }
    }

    /// The line after each of `xs` has been pushed in turn.
    pub open spec fn push_all(self, xs: Seq<S>) -> Line<S>
        decreases xs.len(),
    {
        if xs.len() == 0 {
            self
        } else {
            self.push_all(xs.drop_last()).push(xs.last())
        }
    }

    /// The slot that lies `delay` slots behind the cursor, wrapping at the
    /// start as often as needed.
    pub open spec fn behind(self, delay: int) -> int {
        (self.cursor - delay) % (self.slots.len() as int)
    }

    /// The line resized to `len` slots (one slot if `len` is zero): slots
    /// that stay keep their sample, new slots hold `fill`, and the cursor is
    /// reduced modulo the new length.
    pub open spec fn resized(self, len: int, fill: S) -> Line<S> {
        let n = floor_one(len);
        Line {
            slots: Seq::new(
                n as nat,
                |i: int|
                    if i < self.slots.len() {
                        self.slots[i]
                    } else {
                        fill
                    },
            ),
            cursor: self.cursor % n,
        }
    }
}

/// The slot after `slot` in a line of `len` slots: the next one, or the
/// first after the last.
pub open spec fn next_slot(slot: int, len: int) -> int {
    if slot + 1 == len {
        0
    } else {
        slot + 1
    }
}

/// A length of zero counts as one.
pub open spec fn floor_one(len: int) -> int {
    if len < 1 {
        1
    } else {
        len
    }
}

/// A circular line of samples.
pub struct Ring<S> {
    slots: Vec<S>,
    cursor: usize,
}

impl<S> Ring<S> {
    #[verifier::type_invariant]
    spec fn inv(self) -> bool {
        self.cursor < self.slots@.len()
    }

    /// The slots in storage order, and the cursor.
    pub closed spec fn view(&self) -> Line<S> {
        Line { slots: self.slots@, cursor: self.cursor as int }
    }
}

impl<S: Copy> Ring<S> {
    /// A line of `len` slots, all holding `fill`, with the cursor at the
    /// start. A length of zero gives a line of one slot.
    pub fn new(len: usize, fill: S) -> (ring: Self)
        ensures
            ring@ == Line::filled(len as int, fill),
            ring@.wf(),
    {
        let n = if len < 1 {
            1
        } else {
            len
        };
        let mut slots: Vec<S> = Vec::new();
        let mut i: usize = 0;
        while i < n
            invariant
                i <= n,
                slots@.len() == i,
                forall|k: int| 0 <= k < i ==> slots@[k] == fill,
            decreases n - i,
        {
            slots.push(fill);
            i += 1;
        }
        assert(slots@ =~= Line::filled(len as int, fill).slots);
        Ring { slots, cursor: 0 }
    }

    /// The number of slots; never zero.
    pub fn len(&self) -> (n: usize)
        ensures
            n == self@.slots.len(),
            n >= 1,
            self@.wf(),
    {
        proof {
            use_type_invariant(self);
        }
        self.slots.len()
    }

    /// The slot that the next write goes to.
    pub fn cursor(&self) -> (c: usize)
        ensures
            c == self@.cursor,
            self@.wf(),
    {
        proof {
            use_type_invariant(self);
        }
        self.cursor
    }

    /// The sample under the cursor: the one written longest ago, and the
    /// one that the next write replaces.
    pub fn head(&self) -> (x: S)
        ensures
            x == self@.head(),
    {
        proof {
            use_type_invariant(self);
        }
        self.slots[self.cursor]
    }

    /// The sample in `slot`; `None` for a slot past the end.
    pub fn get(&self, slot: usize) -> (x: Option<S>)
        ensures
            x == if slot < self@.slots.len() {
                Some(self@.slots[slot as int])
            } else {
                None
            },
    {
        if slot < self.slots.len() {
            Some(self.slots[slot])
        } else {
            None
        }
    }

    /// Writes `x` under the cursor and moves the cursor on by one slot,
    /// wrapping at the end.
    pub fn push(&mut self, x: S)
        ensures
            final(self)@ == old(self)@.push(x),
            final(self)@.wf(),
    {
        proof {
            use_type_invariant(&*self);
        }
        let n = self.slots.len();
        let c = self.cursor;
        self.slots[c] = x;
        let next = if c + 1 == n {
            0
        } else {
            c + 1
        };
        self.cursor = next;
    }

    /// The two neighbouring samples that a read `delay` slots behind the
    /// cursor falls between: the sample in the slot `delay` behind the
    /// cursor, and the sample in the slot after it. Both wrap around the
    /// line, so any `delay` is in order; a delay of zero reads under the
    /// cursor.
    pub fn tap(&self, delay: usize) -> (pair: (S, S))
        ensures
            self@.wf(),
            pair.0 == self@.slots[self@.behind(delay as int)],
            pair.1 == self@.slots[next_slot(self@.behind(delay as int), self@.slots.len() as int)],
    {
        proof {
            use_type_invariant(self);
        }
        let n = self.slots.len();
        let c = self.cursor;
        let d = delay % n;
        let first = if c >= d {
            c - d
        } else {
            n - (d - c)
        };
        let second = if first + 1 == n {
            0
        } else {
            first + 1
        };
        proof {
            let q = (delay as int) / (n as int);
            assert(delay as int == q * (n as int) + d as int) by {
                lemma_fundamental_div_mod(delay as int, n as int);
                assert(q * (n as int) == (n as int) * q) by (nonlinear_arith);
            }
            if c >= d {
                assert(c as int - delay as int == (-q) * (n as int) + first as int)
                    by (nonlinear_arith)
                    requires
                        delay as int == q * (n as int) + d as int,
                        first as int == c as int - d as int,
                ;
                lemma_fundamental_div_mod_converse(
                    c as int - delay as int,
                    n as int,
                    -q,
                    first as int,
                );
            } else {
                assert(c as int - delay as int == (-q - 1) * (n as int) + first as int)
                    by (nonlinear_arith)
                    requires
                        delay as int == q * (n as int) + d as int,
                        first as int == n as int - (d as int - c as int),
                ;
                lemma_fundamental_div_mod_converse(
                    c as int - delay as int,
                    n as int,
                    -q - 1,
                    first as int,
                );
            }
            assert(first as int == self@.behind(delay as int));
        }
        (self.slots[first], self.slots[second])
    }

    /// The longest delay, in whole slots, that a fractional read may ask
    /// for: two less than the length, so that the read and its neighbour
    /// stay clear of the slot being written. Lines of fewer than two slots
    /// allow none.
    pub fn max_delay(&self) -> (d: usize)
        ensures
            d == if self@.slots.len() >= 2 {
                self@.slots.len() - 2
            } else {
                0
            },
    {
        let n = self.slots.len();
        if n >= 2 {
            n - 2
        } else {
            0
        }
    }

    /// Resizes the line to `len` slots (one slot if `len` is zero). Slots
    /// that stay keep their sample, new slots hold `fill`, and the cursor is
    /// taken modulo the new length, so it stays inside the line.
    pub fn resize(&mut self, len: usize, fill: S)
        ensures
            final(self)@ == old(self)@.resized(len as int, fill),
            final(self)@.wf(),
    {
        proof {
            use_type_invariant(&*self);
        }
        let n = if len < 1 {
            1
        } else {
            len
        };
        let cursor = self.cursor % n;
        let mut slots: Vec<S> = Vec::new();
        slots.push(fill);
        self.cursor = 0;
        core::mem::swap(&mut self.slots, &mut slots);
        let ghost before = slots@;
        slots.truncate(n);
        let mut i: usize = slots.len();
        while i < n
            invariant
                i <= n,
                slots@.len() == i,
                before.len() <= i || i == n,
                forall|k: int|
                    0 <= k < i ==> slots@[k] == if k < before.len() {
                        before[k]
                    } else {
                        fill
                    },
            decreases n - i,
        {
            slots.push(fill);
            i += 1;
        }
        assert(slots@ =~= Line { slots: before, cursor: 0 }.resized(len as int, fill).slots);
        self.slots = slots;
        self.cursor = cursor;
    }
}

/// Stepping back by at most one full circle from a slot wraps at most once.
proof fn lemma_step_back(cursor: int, delay: int, len: int)
    requires
        0 <= cursor < len,
        0 <= delay <= len,
    ensures
        (cursor - delay) % len == if cursor >= delay {
            cursor - delay
        } else {
            cursor - delay + len
        },
{
    if cursor >= delay {
        lemma_fundamental_div_mod_converse(cursor - delay, len, 0, cursor - delay);
    } else {
        lemma_fundamental_div_mod_converse(cursor - delay, len, -1, cursor - delay + len);
    }
}

/// Pushing keeps a line well formed and of the same length.
pub proof fn push_keeps_shape<S>(line: Line<S>, xs: Seq<S>)
    requires
        line.wf(),
    ensures
        line.push_all(xs).wf(),
        line.push_all(xs).slots.len() == line.slots.len(),
    decreases xs.len(),
{
    if xs.len() > 0 {
        push_keeps_shape(line, xs.drop_last());
    }
}

/// A line delays: after any run of pushes, the slot `delay` behind the
/// cursor holds the sample that was pushed `delay` pushes ago, for every
/// delay from one up to the length of the line that the run is long enough
/// for.
pub proof fn line_reads_back<S>(line: Line<S>, xs: Seq<S>, delay: int)
    requires
        line.wf(),
        1 <= delay <= xs.len(),
        delay <= line.slots.len(),
    ensures
        line.push_all(xs).wf(),
        line.push_all(xs).slots[line.push_all(xs).behind(delay)] == xs[xs.len() - delay],
    decreases xs.len(),
{
    let n = line.slots.len() as int;
    let front = xs.drop_last();
    let mid = line.push_all(front);
    let end = line.push_all(xs);
    push_keeps_shape(line, front);
    push_keeps_shape(line, xs);
    assert(end == mid.push(xs.last()));
    lemma_step_back(end.cursor, delay, n);
    if delay == 1 {
        assert(end.behind(delay) == mid.cursor);
    } else {
        line_reads_back(line, front, delay - 1);
        lemma_step_back(mid.cursor, delay - 1, n);
        assert(end.behind(delay) == mid.behind(delay - 1));
        assert(mid.behind(delay - 1) != mid.cursor);
        assert(front[front.len() - (delay - 1)] == xs[xs.len() - delay]);
    }
}

/// Pushing once around the line brings the cursor back to where it was, and
/// the sample under it is then the first of those pushed: a line of `n`
/// slots delays by exactly `n` samples.
pub proof fn line_comes_full_circle<S>(line: Line<S>, xs: Seq<S>)
    requires
        line.wf(),
        xs.len() == line.slots.len(),
    ensures
        line.push_all(xs).cursor == line.cursor,
        line.push_all(xs).head() == xs[0],
        line.push_all(xs).slots.len() == line.slots.len(),
{
    let n = line.slots.len() as int;
    push_keeps_shape(line, xs);
    lemma_cursor_after(line, xs);
    let end = line.push_all(xs);
    assert(end.cursor == line.cursor) by {
        lemma_fundamental_div_mod_converse(line.cursor + n, n, 1, line.cursor);
    }
    line_reads_back(line, xs, n);
    lemma_step_back(end.cursor, n, n);
}

/// Each push moves the cursor on by one slot around the line.
proof fn lemma_cursor_after<S>(line: Line<S>, xs: Seq<S>)
    requires
        line.wf(),
    ensures
        line.push_all(xs).cursor == (line.cursor + xs.len()) % (line.slots.len() as int),
    decreases xs.len(),
{
    let n = line.slots.len() as int;
    if xs.len() == 0 {
        lemma_small_mod(line.cursor as nat, n as nat);
    } else {
        let front = xs.drop_last();
        lemma_cursor_after(line, front);
        push_keeps_shape(line, front);
        let mid = line.push_all(front);
        let q = (line.cursor + front.len()) / n;
        lemma_fundamental_div_mod(line.cursor + front.len(), n);
        if mid.cursor + 1 == n {
            assert(line.cursor + xs.len() == (q + 1) * n + 0) by (nonlinear_arith)
                requires
                    line.cursor + front.len() == n * q + mid.cursor,
                    mid.cursor + 1 == n,
                    xs.len() == front.len() + 1,
            ;
            lemma_fundamental_div_mod_converse(line.cursor + xs.len(), n, q + 1, 0);
        } else {
            assert(line.cursor + xs.len() == q * n + (mid.cursor + 1)) by (nonlinear_arith)
                requires
                    line.cursor + front.len() == n * q + mid.cursor,
                    xs.len() == front.len() + 1,
            ;
            lemma_fundamental_div_mod_converse(line.cursor + xs.len(), n, q, mid.cursor + 1);
        }
    }
}

/// Resizing leaves a well-formed line: at least one slot, and the cursor
/// inside it.
pub proof fn resize_keeps_cursor_inside<S>(line: Line<S>, len: int, fill: S)
    requires
        line.wf(),
    ensures
        line.resized(len, fill).wf(),
        line.resized(len, fill).slots.len() == floor_one(len),
        line.cursor < floor_one(len) ==> line.resized(len, fill).cursor == line.cursor,
{
    let n = floor_one(len);
    vstd::arithmetic::div_mod::lemma_mod_pos_bound(line.cursor, n);
    if line.cursor < n {
        lemma_small_mod(line.cursor as nat, n as nat);
    }
}

} // verus!
