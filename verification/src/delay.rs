//! A fixed-capacity circular delay line with feedback and wet/dry mix.
//!
//! The backing buffer is allocated once; a logical segment `[start, end]`
//! (circular, never empty) is the active delay line, and `resize` only
//! moves the segment boundaries.  Each `apply` reads the stored sample at
//! the running index, writes back the input mixed with the fed-back echo,
//! and advances the index within the segment.

use vstd::prelude::*;

verus! {

use crate::fixed::{UNIT, AMP_LIMIT, scale, clamp_amp, spec_scale, spec_clamp_amp};
use vstd::arithmetic::div_mod::{
    lemma_fundamental_div_mod,
    lemma_fundamental_div_mod_converse,
    lemma_mod_division_less_than_divisor,
    lemma_mod_decreases,
};

/// Upper bound on a delay line's capacity, comfortably above any real
/// sample-rate times loop-length product and small enough that index
/// arithmetic never overflows a `usize`.
pub const MAX_DELAY_CAPACITY: usize = 0x4000_0000;

pub struct Delay {
    /// The backing buffer; its length is the capacity and never changes.
    pub line: Vec<i64>,
    /// First slot of the active segment.
    pub start: usize,
    /// Last slot of the active segment (inclusive; may wrap below `start`).
    pub end: usize,
    /// The slot the next `apply` reads and writes.
    pub idx: usize,
    /// Feedback coefficient in `[0, UNIT]`.
    pub feedback: i64,
    /// Wet/dry mix in `[0, UNIT]`.
    pub wet: i64,
}

impl Delay {
    /// Capacity of the backing buffer.
    pub open spec fn spec_capacity(self) -> int {
        self.line.len() as int
    }

    /// Number of slots in the active segment, in `[1, capacity]`.
    pub open spec fn spec_length(self) -> int {
        if self.end >= self.start {
            self.end - self.start + 1
        } else {
            self.line.len() - self.start + self.end + 1
        }
    }

    /// Well-formedness: indices inside the buffer, coefficients in range,
    /// stored samples within the amplitude bound.
    pub open spec fn wf(self) -> bool {
        &&& self.line.len() >= 1
        &&& self.line.len() <= MAX_DELAY_CAPACITY
        &&& self.start < self.line.len()
        &&& self.end < self.line.len()
        &&& self.idx < self.line.len()
        &&& 0 <= self.feedback <= UNIT
        &&& 0 <= self.wet <= UNIT
        &&& forall|i: int|
            0 <= i < self.line.len() ==> -AMP_LIMIT <= #[trigger] self.line@[i] <= AMP_LIMIT
    }

    /// The value `apply` writes into the line: input plus fed-back echo,
    /// clamped to the amplitude range.
    pub open spec fn spec_fed(self, dry: int) -> int {
        spec_clamp_amp(dry + spec_scale(self.line@[self.idx as int] as int, self.feedback as int))
    }

    /// The value `apply` returns: the dry/wet mix of the input and the
    /// newly written value.
    pub open spec fn spec_out(self, dry: int) -> int {
        spec_scale(dry, UNIT - self.wet) + spec_scale(self.spec_fed(dry), self.wet as int)
    }

    /// Where the running index moves after one `apply`: to `start` at the
    /// segment's end, otherwise one slot up (wrapping inside the buffer).
    pub open spec fn spec_next_idx(self) -> int {
        if self.idx == self.end {
            self.start as int
        } else if self.idx + 1 == self.line.len() {
            0
        } else {
            self.idx + 1
        }
    }

    /// How one `apply` call with input `dry` relates the delay line
    /// before and after: exactly the contract of [`Delay::apply`], as a
    /// relation usable inside larger specifications.
    pub open spec fn spec_stepped(pre: Delay, post: Delay, dry: int) -> bool {
        &&& post.line@ == pre.line@.update(pre.idx as int, pre.spec_fed(dry) as i64)
        &&& post.idx == pre.spec_next_idx()
        &&& post.start == pre.start
        &&& post.end == pre.end
        &&& post.feedback == pre.feedback
        &&& post.wet == pre.wet
    }

    /// Create a delay line of `sample_count` slots, all holding silence.
    pub fn new(sample_count: usize, feedback: i64, wet: i64) -> (d: Delay)
        requires
            1 <= sample_count <= MAX_DELAY_CAPACITY,
            0 <= feedback <= UNIT,
            0 <= wet <= UNIT,
        ensures
            d.wf(),
            d.line.len() == sample_count,
            d.spec_length() == sample_count,
            d.start == 0,
            d.end == sample_count - 1,
            d.idx == 0,
            d.feedback == feedback,
            d.wet == wet,
            forall|i: int| 0 <= i < sample_count ==> d.line@[i] == 0,
    {
        let mut line: Vec<i64> = Vec::new();
        while line.len() < sample_count
            invariant
                line.len() <= sample_count,
                forall|i: int| 0 <= i < line.len() ==> line@[i] == 0,
            decreases sample_count - line.len(),
        {
            line.push(0);
        }
        Delay { line, start: 0, end: sample_count - 1, idx: 0, feedback, wet }
    }

    /// Number of slots currently in use.
    pub fn delay_line_length(&self) -> (n: usize)
        requires
            self.wf(),
        ensures
            n == self.spec_length(),
            1 <= n <= self.line.len(),
    {
        if self.end >= self.start {
            self.end - self.start + 1
        } else {
            self.line.len() - self.start + self.end + 1
        }
    }

    /// Clear the delay line and re-base the segment at slot 0, keeping the
    /// current length.
    pub fn reset_delay(&mut self)
        requires
            old(self).wf(),
        ensures
            final(self).wf(),
            final(self).spec_length() == old(self).spec_length(),
            final(self).line.len() == old(self).line.len(),
            final(self).start == 0,
            final(self).end == old(self).spec_length() - 1,
            final(self).idx == 0,
            final(self).feedback == old(self).feedback,
            final(self).wet == old(self).wet,
            forall|i: int| 0 <= i < final(self).line.len() ==> final(self).line@[i] == 0,
    {
        let current_length = self.delay_line_length();
        let n = self.line.len();
        let mut i: usize = 0;
        while i < n
            invariant
                n == self.line.len(),
                i <= n,
                self.start == old(self).start,
                self.end == old(self).end,
                self.idx == old(self).idx,
                self.feedback == old(self).feedback,
                self.wet == old(self).wet,
                forall|j: int| 0 <= j < i ==> self.line@[j] == 0,
                forall|j: int|
                    0 <= j < self.line.len() ==> -AMP_LIMIT <= #[trigger] self.line@[j]
                        <= AMP_LIMIT,
            decreases n - i,
        {
            self.line.set(i, 0);
            i = i + 1;
        }
        self.idx = 0;
        self.start = 0;
        self.end = current_length - 1;
    }

    /// Logically resize the delay line to `new_size` slots, capped at the
    /// capacity: shrinking advances `start`, growing advances `end`.  No
    /// stored sample moves.
    pub fn resize(&mut self, new_size: usize)
        requires
            old(self).wf(),
            1 <= new_size,
        ensures
            final(self).wf(),
            final(self).spec_length() == if new_size <= old(self).line.len() {
                new_size as int
            } else {
                old(self).line.len() as int
            },
            final(self).line@ == old(self).line@,
            final(self).idx == old(self).idx,
            final(self).feedback == old(self).feedback,
            final(self).wet == old(self).wet,
    {
        let current_size = self.delay_line_length();
        if new_size == current_size {
            return ;
        }
        if new_size < current_size {
            let mut s = self.start + (current_size - new_size);
            if s >= self.line.len() {
                s = s - self.line.len();
            }
            self.start = s;
        } else {
            let target_size = if new_size < self.line.len() {
                new_size
            } else {
                self.line.len()
            };
            if current_size == target_size {
                return ;
            }
            let mut e = self.end + (target_size - current_size);
            if e >= self.line.len() {
                e = e - self.line.len();
            }
            self.end = e;
        }
    }

    /// Feed one sample through the delay line.
    ///
    /// Reads the stored echo at `idx`, writes back the input plus the
    /// scaled echo (clamped to the amplitude range), advances `idx`, and
    /// returns the dry/wet mix of input and written value.
    pub fn apply(&mut self, dry: i64) -> (out: i64)
        requires
            old(self).wf(),
            -AMP_LIMIT <= dry <= AMP_LIMIT,
        ensures
            final(self).wf(),
            out == old(self).spec_out(dry as int),
            final(self).line@ == old(self).line@.update(
                old(self).idx as int,
                old(self).spec_fed(dry as int) as i64,
            ),
            final(self).idx == old(self).spec_next_idx(),
            final(self).start == old(self).start,
            final(self).end == old(self).end,
            final(self).feedback == old(self).feedback,
            final(self).wet == old(self).wet,
            final(self).line.len() == old(self).line.len(),
            final(self).spec_length() == old(self).spec_length(),
            -2 * AMP_LIMIT <= out <= 2 * AMP_LIMIT,
    {
        let delayed_out = self.line[self.idx];
        let fed = clamp_amp(dry + scale(delayed_out, self.feedback));
        self.line.set(self.idx, fed);
        let out = scale(dry, UNIT - self.wet) + scale(fed, self.wet);
        if self.idx == self.end {
            self.idx = self.start;
        } else if self.idx + 1 == self.line.len() {
            self.idx = 0;
        } else {
            self.idx = self.idx + 1;
        }
        out
    }
}

/// With feedback 0 an `apply` writes the input itself, with wet `UNIT` it
/// returns exactly the written value, and on a full-capacity segment the
/// running index walks the buffer circularly: one `apply` is one step of
/// the recording model below.
pub proof fn lemma_apply_is_recording(d: Delay, dry: int)
    requires
        d.wf(),
        d.feedback == 0,
        d.start == 0,
        d.end == d.line.len() - 1,
        -AMP_LIMIT <= dry <= AMP_LIMIT,
    ensures
        d.spec_fed(dry) == dry,
        d.spec_next_idx() == (d.idx + 1) % (d.line.len() as int),
        d.wet == UNIT ==> d.spec_out(dry) == dry,
{
    let len = d.line.len() as int;
    let stored = d.line@[d.idx as int] as int;
    assert(stored * 0 == 0) by (nonlinear_arith);
    assert(-stored * 0 == 0) by (nonlinear_arith);
    assert(spec_scale(stored, 0) == 0);
    if d.idx == d.end {
        assert((d.idx + 1) % len == 0) by {
            lemma_fundamental_div_mod_converse(d.idx + 1, len, 1, 0);
        }
    } else {
        assert((d.idx + 1) % len == d.idx + 1) by {
            lemma_fundamental_div_mod_converse(d.idx + 1, len, 0, d.idx + 1);
        }
    }
    if d.wet == UNIT {
        assert(spec_scale(dry, 0) == 0) by {
            assert(dry * 0 == 0) by (nonlinear_arith);
            assert(-dry * 0 == 0) by (nonlinear_arith);
        }
        let fed = d.spec_fed(dry);
        assert(fed == dry);
        assert(spec_scale(dry, UNIT as int) == dry) by (nonlinear_arith)
            requires
                -AMP_LIMIT <= dry <= AMP_LIMIT,
        ;
    }
}

/// The contents of a delay line after `n` steps of pure recording: step
/// `m` writes `inputs[m]` at slot `m % len`, exactly what `apply` does to
/// a full-capacity segment when `feedback == 0` (then `spec_fed` is the
/// input itself and `spec_next_idx` walks the buffer circularly).
pub open spec fn spec_recorded(line0: Seq<int>, inputs: Seq<int>, n: int) -> Seq<int>
    decreases n,
{
    if n <= 0 {
        line0
    } else {
        spec_recorded(line0, inputs, n - 1).update((n - 1) % (line0.len() as int), inputs[n - 1])
    }
}

/// The sample `apply` number `k` reads out of the line (slots are read
/// just before they are overwritten, at the same running index).
pub open spec fn spec_read_at(line0: Seq<int>, inputs: Seq<int>, k: int) -> int {
    spec_recorded(line0, inputs, k)[k % (line0.len() as int)]
}

/// The step at which slot `j` was last written, among steps `0..n`.
pub open spec fn spec_last_write(n: int, len: int, j: int) -> int {
    n - 1 - ((n - 1 - j) % len)
}

/// After `n` recording steps, slot `j` holds the input of its last write,
/// or the initial contents if it was never written.
proof fn lemma_recorded_form(line0: Seq<int>, inputs: Seq<int>, n: int)
    requires
        1 <= line0.len(),
        0 <= n <= inputs.len(),
    ensures
        spec_recorded(line0, inputs, n).len() == line0.len(),
        forall|j: int|
            0 <= j < line0.len() ==> #[trigger] spec_recorded(line0, inputs, n)[j] == if j < n {
                inputs[spec_last_write(n, line0.len() as int, j)]
            } else {
                line0[j]
            },
    decreases n,
{
    let len = line0.len() as int;
    if n > 0 {
        lemma_recorded_form(line0, inputs, n - 1);
        let w = (n - 1) % len;
        lemma_mod_division_less_than_divisor(n - 1, len);
        lemma_mod_decreases((n - 1) as nat, len as nat);
        lemma_fundamental_div_mod(n - 1, len);
        assert forall|j: int| 0 <= j < len implies #[trigger] spec_recorded(line0, inputs, n)[j]
            == if j < n {
            inputs[spec_last_write(n, len, j)]
        } else {
            line0[j]
        } by {
            if j == w {
                // `n - 1 - j` is a multiple of `len`, so the last write is step `n - 1`.
                let q = (n - 1) / len;
                assert(n - 1 - j == q * len);
                lemma_fundamental_div_mod_converse(n - 1 - j, len, q, 0);
                assert(spec_last_write(n, len, j) == n - 1);
            } else {
                lemma_fundamental_div_mod(n - 1 - j, len);
                let q = (n - 1 - j) / len;
                let r = (n - 1 - j) % len;
                lemma_mod_division_less_than_divisor(n - 1 - j, len);
                if j < n {
                    // Slot `j` was untouched by step `n - 1`, and its last
                    // write among `0..n` is its last write among `0..n-1`.
                    if r == 0 {
                        // Then `j` and `n - 1` agree modulo `len`, i.e. `j == w`.
                        lemma_fundamental_div_mod_converse(n - 1, len, q, j);
                        assert(false);
                    }
                    assert(n - 2 - j == q * len + (r - 1));
                    lemma_fundamental_div_mod_converse(n - 2 - j, len, q, r - 1);
                    assert(spec_last_write(n, len, j) == spec_last_write(n - 1, len, j));
                    if j == n - 1 {
                        // `j < len` makes `(n - 1) % len == n - 1 == j`, excluded above.
                        lemma_fundamental_div_mod_converse(n - 1, len, 0, j);
                        assert(false);
                    }
                }
            }
        }
    }
}

/// The pure-delay law: with feedback 0 a delay line only records, and the
/// sample read out at step `k` is exactly the input of step `k - len` —
/// silence while the line is still filling.  In particular the first input
/// leaves the line after exactly `len` steps.
pub proof fn lemma_pure_delay_reads(line0: Seq<int>, inputs: Seq<int>, k: int)
    requires
        1 <= line0.len(),
        forall|i: int| 0 <= i < line0.len() ==> line0[i] == 0,
        0 <= k < inputs.len(),
    ensures
        spec_read_at(line0, inputs, k) == if k < line0.len() {
            0
        } else {
            inputs[k - line0.len()]
        },
{
    let len = line0.len() as int;
    let j = k % len;
    lemma_mod_division_less_than_divisor(k, len);
    lemma_recorded_form(line0, inputs, k);
    if k < len {
        lemma_fundamental_div_mod_converse(k, len, 0, k);
        assert(j == k);
    } else {
        lemma_fundamental_div_mod(k, len);
        let q = k / len;
        assert(k - j == q * len);
        // `k - 1 - j` sits just under a multiple of `len`, so slot `j` was
        // last written at step `k - len`.
        assert(k - 1 - j == (q - 1) * len + (len - 1)) by (nonlinear_arith)
            requires
                k - j == q * len,
                len >= 1,
        ;
        lemma_fundamental_div_mod_converse(k - 1 - j, len, q - 1, len - 1);
        assert(spec_last_write(k, len, j) == k - len);
        lemma_mod_decreases(k as nat, len as nat);
    }
}

} // verus!
