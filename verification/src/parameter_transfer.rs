//! A fixed-size table of parameters with a packed changed-bitmap.
//!
//! A writer stores a parameter's 32-bit pattern and marks the parameter as
//! changed; a consumer walks the changed set in strictly increasing index
//! order, optionally acknowledging (clearing) each mark as it is reported.
//! The presence marks are packed into 64-bit words, so a whole word of
//! unchanged parameters is skipped in one step.

use vstd::arithmetic::div_mod::{
    lemma_div_is_ordered, lemma_div_plus_one, lemma_fundamental_div_mod,
    lemma_fundamental_div_mod_converse, lemma_mod_division_less_than_divisor,
};
use vstd::prelude::*;

verus! {

/// Number of presence bits packed into one bitmap word.
pub const WORD_BITS: usize = 64;

/// Whether bit `k` of the word `w` is set.
pub open spec fn word_bit_set(w: u64, k: u64) -> bool {
    (w >> k) & 1u64 == 1u64
}

/// Whether the presence bit of global index `i` is set in the packed words.
pub open spec fn bit_at(words: Seq<u64>, i: int) -> bool {
    word_bit_set(words[i / 64], (i % 64) as u64)
}

/// Abstract state of a parameter table: one bit pattern and one
/// changed flag per parameter.
#[verifier::ext_equal]
pub struct ParamView {
    /// Current bit pattern of each parameter.
    pub values: Seq<u32>,
    /// Whether each parameter was written since it was last acknowledged.
    pub changed: Seq<bool>,
}

/// A set of parameters that can be handed from one side of a plugin to
/// the other.
///
/// Supports iteration over the parameters that changed since the last
/// acknowledging iteration, in increasing index order.
pub struct ParameterTransfer {
    values: Vec<u32>,
    changed: Vec<u64>,
}

impl View for ParameterTransfer {
    type V = ParamView;

    closed spec fn view(&self) -> ParamView {
        ParamView {
            values: self.values@,
            changed: Seq::new(self.values@.len(), |i: int| bit_at(self.changed@, i)),
        }
    }
}

impl ParameterTransfer {
    /// Number of parameters in the table, fixed at construction.
    pub open spec fn param_count(self) -> nat {
        self@.values.len()
    }

    /// The packed bitmap has one word per 64 parameters (rounded up) and
    /// every bit at or beyond the parameter count is clear.
    pub closed spec fn wf(self) -> bool {
        &&& self.changed@.len() == (self.values@.len() + 63) / 64
        &&& forall|i: int|
            self.values@.len() <= i < self.changed@.len() * 64 ==> !#[trigger] bit_at(
                self.changed@,
                i,
            )
    }

    /// The views agree in length.
    pub broadcast proof fn lemma_view_len(self)
        ensures
            #[trigger] self@.changed.len() == self@.values.len(),
    {
    }

    /// Create a new parameter table with `parameter_count` parameters,
    /// every value zero and every changed flag clear.
    pub fn new(parameter_count: usize) -> (r: ParameterTransfer)
        requires
            parameter_count + 63 <= usize::MAX,
        ensures
            r.wf(),
            r.param_count() == parameter_count,
            r@.values == Seq::new(parameter_count as nat, |i: int| 0u32),
            r@.changed == Seq::new(parameter_count as nat, |i: int| false),
    {
        let bit_words = (parameter_count + (WORD_BITS - 1)) / WORD_BITS;
        let mut values: Vec<u32> = Vec::new();
        let mut changed: Vec<u64> = Vec::new();
        let mut i: usize = 0;
        while i < parameter_count
            invariant
                i <= parameter_count,
                values@ == Seq::new(i as nat, |j: int| 0u32),
            decreases parameter_count - i,
        {
            values.push(0);
            assert(values@ =~= Seq::new((i + 1) as nat, |j: int| 0u32));
            i = i + 1;
        }
        let mut w: usize = 0;
        while w < bit_words
            invariant
                w <= bit_words,
                changed@ == Seq::new(w as nat, |j: int| 0u64),
            decreases bit_words - w,
        {
            changed.push(0);
            assert(changed@ =~= Seq::new((w + 1) as nat, |j: int| 0u64));
            w = w + 1;
        }
        let r = ParameterTransfer { values, changed };
        proof {
            assert forall|i: int|
                r.values@.len() <= i < r.changed@.len() * 64 implies !#[trigger] bit_at(
                r.changed@,
                i,
            ) by {
                lemma_mod_division_less_than_divisor(i, 64);
                lemma_div_is_ordered(0, i, 64);
                lemma_div_word_range(i, r.changed@.len() as int);
                let ww = r.changed@[i / 64];
                let k = (i % 64) as u64;
                assert(ww == 0u64);
                assert((0u64 >> k) & 1u64 == 0u64) by (bit_vector);
            }
            assert(r@.values =~= Seq::new(parameter_count as nat, |i: int| 0u32));
            assert forall|i: int| 0 <= i < parameter_count implies !#[trigger] bit_at(
                r.changed@,
                i,
            ) by {
                lemma_mod_division_less_than_divisor(i, 64);
                lemma_div_is_ordered(0, i, 64);
                lemma_div_word_range(i, r.changed@.len() as int);
                let k = (i % 64) as u64;
                assert((0u64 >> k) & 1u64 == 0u64) by (bit_vector);
            }
            assert(r@.changed =~= Seq::new(parameter_count as nat, |i: int| false));
        }
        r
    }

    /// Set the parameter with index `index` to the bit pattern `value` and
    /// mark it as changed. No other parameter's value or mark is touched.
    pub fn set_parameter(&mut self, index: usize, value: u32)
        requires
            old(self).wf(),
            index < old(self).param_count(),
        ensures
            final(self).wf(),
            final(self).param_count() == old(self).param_count(),
            final(self)@.values == old(self)@.values.update(index as int, value),
            final(self)@.changed == old(self)@.changed.update(index as int, true),
    {
        proof {
            lemma_index_in_words(index as int, self.values@.len() as int);
        }
        let (word, bit) = word_and_bit(index);
        self.values[index] = value;
        let w = self.changed[word];
        self.changed[word] = w | bit;
        proof {
            let n = self.values@.len() as int;
            let i = index as int;
            let k = (i % 64) as u64;
            let oldw = old(self).changed@;
            let neww = self.changed@;
            assert forall|j: int| 0 <= j < neww.len() * 64 implies #[trigger] bit_at(neww, j) == (
            bit_at(oldw, j) || j == i) by {
                lemma_mod_division_less_than_divisor(j, 64);
                lemma_div_is_ordered(0, j, 64);
                lemma_div_word_range(j, neww.len() as int);
                let l = (j % 64) as u64;
                if j / 64 == i / 64 {
                    lemma_or_bit(oldw[i / 64], k, l);
                    lemma_fundamental_div_mod(j, 64);
                    lemma_fundamental_div_mod(i, 64);
                    assert(l == k <==> j == i);
                } else {
                    assert(neww[j / 64] == oldw[j / 64]);
                }
            }
            assert forall|j: int| n <= j < neww.len() * 64 implies !#[trigger] bit_at(
                neww,
                j,
            ) by {
                assert(!bit_at(oldw, j));
            }
            assert(final(self)@.values =~= old(self)@.values.update(i, value));
            assert(final(self)@.changed =~= old(self)@.changed.update(i, true));
        }
    }

    /// Number of parameters in the table.
    pub fn parameter_count(&self) -> (r: usize)
        ensures
            r == self.param_count(),
    {
        self.values.len()
    }

    /// Get the current bit pattern of the parameter with index `index`.
    /// Reading neither consumes nor alters the changed mark.
    pub fn get_parameter(&self, index: usize) -> (r: u32)
        requires
            index < self.param_count(),
        ensures
            r == self@.values[index as int],
    {
        self.values[index]
    }
}

impl ParameterTransfer {
    /// Begin an iteration over the parameters currently marked as changed.
    ///
    /// The cursor starts at index 0; repeated calls to
    /// [`ParameterTransferIterator::next`] on the same table report the
    /// changed parameters in strictly increasing index order, each at most
    /// once per iteration. If `acquire` is `true`, each reported
    /// parameter's mark is cleared as it is reported; if `false`, the
    /// bitmap is left untouched (peek mode).
    pub fn iterate(&self, acquire: bool) -> (it: ParameterTransferIterator)
        ensures
            it.wf(),
            it.pos() == 0,
            it.is_acquire() == acquire,
    {
        ParameterTransferIterator { word: 0, bit: 0, acquire }
    }
}

/// A cursor over the changed parameters of a [`ParameterTransfer`].
/// Returned by [`ParameterTransfer::iterate`].
pub struct ParameterTransferIterator {
    word: usize,
    bit: usize,
    acquire: bool,
}

impl ParameterTransferIterator {
    /// First global bit index the cursor has not yet examined.
    pub closed spec fn pos(self) -> int {
        self.word * 64 + self.bit
    }

    /// Whether the cursor clears each mark as it reports it.
    pub closed spec fn is_acquire(self) -> bool {
        self.acquire
    }

    /// The in-word position is always below the word width.
    pub closed spec fn wf(self) -> bool {
        self.bit < 64
    }

    /// Report the changed parameter with the smallest index at or after
    /// the cursor, together with its current bit pattern, and move the
    /// cursor past it; or report `None` if no parameter at or after the
    /// cursor is marked. In acquire mode the reported parameter's mark is
    /// cleared before its value is read; no other mark is ever touched.
    #[verifier::loop_isolation(false)]
    pub fn next(&mut self, pt: &mut ParameterTransfer) -> (r: Option<(usize, u32)>)
        requires
            old(self).wf(),
            old(pt).wf(),
        ensures
            final(self).wf(),
            final(pt).wf(),
            final(self).is_acquire() == old(self).is_acquire(),
            final(pt).param_count() == old(pt).param_count(),
            final(pt)@.values == old(pt)@.values,
            old(self).pos() <= final(self).pos(),
            match r {
                Option::None => {
                    &&& *final(pt) == *old(pt)
                    &&& forall|j: int|
                        old(self).pos() <= j < old(pt)@.changed.len() ==> !old(pt)@.changed[j]
                    &&& final(self).pos() >= old(pt)@.changed.len()
                },
                Option::Some((index, value)) => {
                    &&& old(self).pos() <= index < old(pt)@.changed.len()
                    &&& old(pt)@.changed[index as int]
                    &&& forall|j: int| old(self).pos() <= j < index ==> !old(pt)@.changed[j]
                    &&& value == old(pt)@.values[index as int]
                    &&& final(self).pos() == index + 1
                    &&& final(pt)@.changed == if old(self).is_acquire() {
                        old(pt)@.changed.update(index as int, false)
                    } else {
                        old(pt)@.changed
                    }
                },
            },
    {
        let ghost n = pt@.values.len() as int;
        let mut word = self.word;
        let mut bit = self.bit;
        let mut found: bool = false;
        let mut fbit: usize = 0;
        while !found && word < pt.changed.len()
            invariant
                bit < 64,
                self.pos() <= word * 64 + bit,
                forall|j: int|
                    self.pos() <= j < word * 64 + bit && j < n ==> !#[trigger] pt@.changed[j],
                found ==> {
                    &&& word < pt.changed@.len()
                    &&& bit <= fbit < 64
                    &&& word_bit_set(pt.changed@[word as int], fbit as u64)
                    &&& forall|j: int|
                        self.pos() <= j < word * 64 + fbit && j < n ==> !#[trigger] pt@.changed[j]
                },
            decreases
                    pt.changed@.len() - word,
                    if found {
                        0int
                    } else {
                        1int
                    },
        {
            let w = pt.changed[word];
            let x = w >> (bit as u64);
            if x == 0 {
                proof {
                    assert forall|j: int|
                        word * 64 + bit <= j < word * 64 + 64 && j < n implies !#[trigger] pt@
                        .changed[j] by {
                        lemma_fundamental_div_mod_converse(j, 64, word as int, j - word * 64);
                        lemma_shift_zero(w, bit as u64, (j - word * 64) as u64);
                    }
                }
                word = word + 1;
                bit = 0;
            } else {
                let sh = x.trailing_zeros() as usize;
                proof {
                    vstd::std_specs::bits::axiom_u64_trailing_zeros(x);
                    lemma_tz_in_range(w, bit as u64, sh as u64);
                    lemma_shift_shift(w, bit as u64, sh as u64, (bit + sh) as u64);
                    assert forall|j: int|
                        word * 64 + bit <= j < word * 64 + (bit + sh) && j < n implies !#[trigger] pt@
                        .changed[j] by {
                        lemma_fundamental_div_mod_converse(j, 64, word as int, j - word * 64);
                        let l = j - word * 64;
                        lemma_shift_shift(w, bit as u64, (l - bit) as u64, l as u64);
                    }
                }
                fbit = bit + sh;
                found = true;
            }
        }
        if found {
            proof {
                assert(word * 64 + fbit < pt.changed@.len() * 64) by (nonlinear_arith)
                    requires
                        word < pt.changed@.len(),
                        fbit < 64,
                ;
                lemma_fundamental_div_mod_converse(word * 64 + fbit, 64, word as int, fbit as int);
                assert(bit_at(pt.changed@, word * 64 + fbit));
                if word * 64 + fbit >= n {
                    assert(!bit_at(pt.changed@, word * 64 + fbit));
                }
                assert(word * 64 + fbit < n);
            }
            let value_count = pt.values.len();
            assert(word * 64 + fbit < value_count);
            let index = word * WORD_BITS + fbit;
            let w = pt.changed[word];
            if self.acquire {
                pt.changed[word] = w & !(1u64 << (fbit as u64));
                proof {
                    let i = index as int;
                    let k = fbit as u64;
                    let oldw = old(pt).changed@;
                    let neww = pt.changed@;
                    assert forall|j: int| 0 <= j < neww.len() * 64 implies #[trigger] bit_at(
                        neww,
                        j,
                    ) == (bit_at(oldw, j) && j != i) by {
                        lemma_mod_division_less_than_divisor(j, 64);
                        lemma_div_is_ordered(0, j, 64);
                        lemma_div_word_range(j, neww.len() as int);
                        let l = (j % 64) as u64;
                        if j / 64 == i / 64 {
                            lemma_clear_bit(oldw[i / 64], k, l);
                            lemma_fundamental_div_mod(j, 64);
                            lemma_fundamental_div_mod(i, 64);
                            assert(l == k <==> j == i);
                        } else {
                            assert(neww[j / 64] == oldw[j / 64]);
                        }
                    }
                    assert forall|j: int| n <= j < neww.len() * 64 implies !#[trigger] bit_at(
                        neww,
                        j,
                    ) by {
                        assert(!bit_at(oldw, j));
                    }
                    assert(pt@.changed =~= old(pt)@.changed.update(i, false));
                    assert(pt@.values =~= old(pt)@.values);
                }
            }
            if fbit == WORD_BITS - 1 {
                self.word = word + 1;
                self.bit = 0;
            } else {
                self.word = word;
                self.bit = fbit + 1;
            }
            let value = pt.get_parameter(index);
            Some((index, value))
        } else {
            proof {
                let len = pt.changed@.len() as int;
                lemma_fundamental_div_mod(n + 63, 64);
                lemma_mod_division_less_than_divisor(n + 63, 64);
                assert(word * 64 >= len * 64) by (nonlinear_arith)
                    requires
                        word >= len,
                ;
            }
            self.word = word;
            self.bit = bit;
            None
        }
    }
}

/// The changed parameters of `v` with index at or after `lo`, in increasing
/// index order, each paired with the current bit pattern of that parameter.
pub open spec fn report_from(v: ParamView, lo: int) -> Seq<(usize, u32)>
    recommends
        0 <= lo <= v.changed.len(),
    decreases v.changed.len() - lo,
    when 0 <= lo <= v.changed.len()
{
    if lo >= v.changed.len() {
        Seq::empty()
    } else if v.changed[lo] {
        seq![(lo as usize, v.values[lo])] + report_from(v, lo + 1)
    } else {
        report_from(v, lo + 1)
    }
}

/// What one full iteration over `v` reports: the changed parameters in
/// increasing index order, each with its current bit pattern.
pub open spec fn report(v: ParamView) -> Seq<(usize, u32)> {
    report_from(v, 0)
}

/// How many entries of `s` report the parameter index `i`.
pub open spec fn index_count(s: Seq<(usize, u32)>, i: int) -> nat
    decreases s.len(),
{
    if s.len() == 0 {
        0nat
    } else {
        (if s[0].0 == i {
            1nat
        } else {
            0nat
        }) + index_count(s.drop_first(), i)
    }
}

impl ParameterTransfer {
    /// Run one full iteration and collect what it reports.
    ///
    /// The result is exactly [`report`] of the table's state at the call:
    /// the changed parameters in strictly increasing index order, each
    /// exactly once, paired with its current bit pattern. With `acquire`
    /// every mark is clear afterwards; without it the table is left
    /// exactly as it was, so repeated peeks report the same set.
    #[verifier::loop_isolation(false)]
    pub fn collect_changed(&mut self, acquire: bool) -> (r: Vec<(usize, u32)>)
        requires
            old(self).wf(),
        ensures
            final(self).wf(),
            final(self).param_count() == old(self).param_count(),
            final(self)@.values == old(self)@.values,
            r@ == report(old(self)@),
            acquire ==> final(self)@.changed == Seq::new(
                old(self)@.changed.len(),
                |i: int| false,
            ),
            !acquire ==> final(self)@.changed == old(self)@.changed,
    {
        let ghost v0 = self@;
        let ghost n = self@.changed.len() as int;
        let mut it = self.iterate(acquire);
        let mut r: Vec<(usize, u32)> = Vec::new();
        loop
            invariant
                it.wf(),
                self.wf(),
                it.is_acquire() == acquire,
                self.param_count() == v0.values.len(),
                n == v0.changed.len(),
                n == v0.values.len(),
                n == self@.changed.len(),
                self@.values == v0.values,
                0 <= it.pos(),
                forall|j: int| it.pos() <= j < n ==> self@.changed[j] == v0.changed[j],
                acquire ==> forall|j: int| 0 <= j < it.pos() && j < n ==> !self@.changed[j],
                !acquire ==> self@.changed == v0.changed,
                r@ + report_from(v0, if it.pos() <= n { it.pos() } else { n }) == report(v0),
            decreases n - it.pos() + 1,
        {
            let ghost p0 = it.pos();
            match it.next(self) {
                Option::Some((index, value)) => {
                    proof {
                        lemma_report_skip(v0, if p0 <= n { p0 } else { n }, index as int);
                        assert(report_from(v0, index as int) == seq![(index, value)]
                            + report_from(v0, index + 1));
                        assert(r@.push((index, value)) + report_from(v0, index + 1) =~= r@ + (seq![
                            (index, value),
                        ] + report_from(v0, index + 1)));
                    }
                    r.push((index, value));
                },
                Option::None => {
                    proof {
                        lemma_report_skip(v0, if p0 <= n { p0 } else { n }, n);
                        assert(r@ + report_from(v0, n) =~= r@);
                        if acquire {
                            assert(self@.changed =~= Seq::new(v0.changed.len(), |i: int| false));
                        }
                    }
                    return r;
                },
            }
        }
    }
}

/// Entries with index below `hi` and at or after `lo` are all unmarked, so
/// the report from `lo` is the report from `hi`.
proof fn lemma_report_skip(v: ParamView, lo: int, hi: int)
    requires
        0 <= lo <= v.changed.len(),
        lo <= hi <= v.changed.len(),
        forall|j: int| lo <= j < hi ==> !v.changed[j],
    ensures
        report_from(v, lo) == report_from(v, hi),
    decreases hi - lo,
{
    if lo < hi {
        lemma_report_skip(v, lo + 1, hi);
    }
}

/// The step [`ParameterTransfer::set_parameter`] promises: `post` is `pre`
/// with parameter `i` set to the pattern `bits` and marked as changed.
pub open spec fn set_effect(pre: ParamView, post: ParamView, i: int, bits: u32) -> bool {
    &&& pre.changed.len() == pre.values.len()
    &&& 0 <= i < pre.values.len()
    &&& post.values == pre.values.update(i, bits)
    &&& post.changed == pre.changed.update(i, true)
}

/// What [`ParameterTransfer::collect_changed`] without acquire promises:
/// the table is left as it was and the report of its state is returned.
pub open spec fn peek_effect(pre: ParamView, post: ParamView, r: Seq<(usize, u32)>) -> bool {
    &&& post.values == pre.values
    &&& post.changed == pre.changed
    &&& r == report(pre)
}

/// Round-trip: after a parameter is set to a bit pattern, reading that
/// parameter gives back the very same pattern. Values are carried as
/// patterns, so NaN payloads, the sign of zero and subnormals survive.
pub proof fn lemma_round_trip(pre: ParamView, post: ParamView, i: int, bits: u32)
    requires
        set_effect(pre, post, i, bits),
    ensures
        post.values[i] == bits,
        post.changed[i],
{
}

/// Bit independence: setting one parameter touches no other parameter's
/// value or changed mark, not even one sharing the same bitmap word.
pub proof fn lemma_bit_independence(pre: ParamView, post: ParamView, i: int, bits: u32, j: int)
    requires
        set_effect(pre, post, i, bits),
        0 <= j < pre.values.len(),
        j != i,
    ensures
        post.values[j] == pre.values[j],
        post.changed[j] == pre.changed[j],
{
}

/// Peek idempotence: a non-acquiring iteration reports the same sequence
/// each time it is repeated, leaves the table exactly as it was, and what
/// an acquiring iteration would then report is still that same sequence.
pub proof fn lemma_peek_idempotent(
    v0: ParamView,
    v1: ParamView,
    v2: ParamView,
    r1: Seq<(usize, u32)>,
    r2: Seq<(usize, u32)>,
)
    requires
        peek_effect(v0, v1, r1),
        peek_effect(v1, v2, r2),
    ensures
        r1 == r2,
        v2 == v0,
        report(v2) == r1,
{
    assert(v1 =~= v0);
    assert(v2 =~= v0);
}

/// A table with no marks set reports nothing. In particular a table that
/// an acquiring iteration has just drained, and a zero-length table,
/// yield an empty iteration.
pub proof fn lemma_empty_report(v: ParamView)
    requires
        forall|i: int| 0 <= i < v.changed.len() ==> !v.changed[i],
    ensures
        report(v) == Seq::<(usize, u32)>::empty(),
{
    lemma_report_skip(v, 0, v.changed.len() as int);
}

/// Strictly increasing order: a report never repeats an index and never
/// steps backwards.
pub proof fn lemma_report_increasing(v: ParamView, k1: int, k2: int)
    requires
        v.changed.len() <= usize::MAX,
        0 <= k1 < k2 < report(v).len(),
    ensures
        report(v)[k1].0 < report(v)[k2].0,
{
    lemma_report_from_increasing(v, 0, k1, k2);
}

/// Exactly the marked parameters are reported, each exactly once.
pub proof fn lemma_report_membership(v: ParamView, i: int)
    requires
        v.changed.len() <= usize::MAX,
        0 <= i < v.changed.len(),
    ensures
        index_count(report(v), i) == if v.changed[i] {
            1nat
        } else {
            0nat
        },
{
    lemma_report_from_count(v, 0, i);
}

/// Every reported pair names a marked parameter and carries that
/// parameter's current bit pattern.
pub proof fn lemma_report_values(v: ParamView, k: int)
    requires
        v.changed.len() <= usize::MAX,
        0 <= k < report(v).len(),
    ensures
        0 <= report(v)[k].0 < v.changed.len(),
        v.changed[report(v)[k].0 as int],
        report(v)[k].1 == v.values[report(v)[k].0 as int],
{
    lemma_report_from_bounds(v, 0, k);
}

/// Single-writer precision: after a parameter is written twice in a row,
/// an iteration reports that parameter exactly once, and the value it
/// pairs with it is the second pattern, not the first.
pub proof fn lemma_last_write_wins(
    v0: ParamView,
    v1: ParamView,
    v2: ParamView,
    i: int,
    b1: u32,
    b2: u32,
)
    requires
        v0.changed.len() <= usize::MAX,
        set_effect(v0, v1, i, b1),
        set_effect(v1, v2, i, b2),
    ensures
        index_count(report(v2), i) == 1,
        forall|k: int|
            0 <= k < report(v2).len() && (#[trigger] report(v2)[k]).0 == i ==> report(v2)[k].1
                == b2,
{
    lemma_report_from_count(v2, 0, i);
    assert forall|k: int|
        0 <= k < report(v2).len() && (#[trigger] report(v2)[k]).0 == i implies report(v2)[k].1
        == b2 by {
        lemma_report_from_bounds(v2, 0, k);
    }
}

/// The table state after a run of writes, each applied in order as
/// [`ParameterTransfer::set_parameter`] would.
pub open spec fn apply_sets(v: ParamView, ops: Seq<(int, u32)>) -> ParamView
    decreases ops.len(),
{
    if ops.len() == 0 {
        v
    } else {
        apply_sets(
            ParamView {
                values: v.values.update(ops[0].0, ops[0].1),
                changed: v.changed.update(ops[0].0, true),
            },
            ops.drop_first(),
        )
    }
}

/// The last pattern a run of writes stores into index `i`, if any write
/// of the run touches `i`.
pub open spec fn last_write(ops: Seq<(int, u32)>, i: int) -> Option<u32>
    decreases ops.len(),
{
    if ops.len() == 0 {
        None
    } else {
        match last_write(ops.drop_first(), i) {
            Some(b) => Some(b),
            None => if ops[0].0 == i {
                Some(ops[0].1)
            } else {
                None
            },
        }
    }
}

/// A run of writes marks exactly the indices it writes, and leaves each
/// written parameter holding the last pattern written to it; parameters
/// it does not write keep their value and mark.
pub proof fn lemma_apply_sets(v: ParamView, ops: Seq<(int, u32)>, i: int)
    requires
        v.changed.len() == v.values.len(),
        forall|k: int| 0 <= k < ops.len() ==> 0 <= (#[trigger] ops[k]).0 < v.values.len(),
        0 <= i < v.values.len(),
    ensures
        apply_sets(v, ops).values.len() == v.values.len(),
        apply_sets(v, ops).changed.len() == v.changed.len(),
        apply_sets(v, ops).changed[i] == (v.changed[i] || last_write(ops, i).is_some()),
        apply_sets(v, ops).values[i] == match last_write(ops, i) {
            Some(b) => b,
            None => v.values[i],
        },
    decreases ops.len(),
{
    if ops.len() > 0 {
        let v1 = ParamView {
            values: v.values.update(ops[0].0, ops[0].1),
            changed: v.changed.update(ops[0].0, true),
        };
        assert(forall|k: int|
            0 <= k < ops.drop_first().len() ==> (#[trigger] ops.drop_first()[k]) == ops[k + 1]);
        lemma_apply_sets(v1, ops.drop_first(), i);
    }
}

/// No duplicate, increasing order, never a lost last write: after an
/// arbitrary run of writes into a table with no prior marks, one
/// iteration reports exactly the indices written — each exactly once, by
/// [`lemma_report_increasing`] in increasing order — and pairs each with
/// the last pattern written to it.
pub proof fn lemma_writes_then_report(v0: ParamView, ops: Seq<(int, u32)>, i: int)
    requires
        v0.changed.len() == v0.values.len(),
        v0.changed.len() <= usize::MAX,
        forall|j: int| 0 <= j < v0.changed.len() ==> !v0.changed[j],
        forall|k: int| 0 <= k < ops.len() ==> 0 <= (#[trigger] ops[k]).0 < v0.values.len(),
        0 <= i < v0.values.len(),
    ensures
        index_count(report(apply_sets(v0, ops)), i) == if last_write(ops, i).is_some() {
            1nat
        } else {
            0nat
        },
        forall|k: int|
            0 <= k < report(apply_sets(v0, ops)).len() && (#[trigger] report(
                apply_sets(v0, ops),
            )[k]).0 == i ==> last_write(ops, i) == Some(report(apply_sets(v0, ops))[k].1),
{
    let v1 = apply_sets(v0, ops);
    lemma_apply_sets(v0, ops, i);
    lemma_report_from_count(v1, 0, i);
    assert forall|k: int|
        0 <= k < report(v1).len() && (#[trigger] report(v1)[k]).0 == i implies last_write(ops, i)
        == Some(report(v1)[k].1) by {
        lemma_report_from_bounds(v1, 0, k);
    }
}

/// Every entry of a report from `lo` names a marked parameter with index
/// at or after `lo` and carries that parameter's current pattern.
proof fn lemma_report_from_bounds(v: ParamView, lo: int, k: int)
    requires
        v.changed.len() <= usize::MAX,
        0 <= lo <= v.changed.len(),
        0 <= k < report_from(v, lo).len(),
    ensures
        lo <= report_from(v, lo)[k].0 < v.changed.len(),
        v.changed[report_from(v, lo)[k].0 as int],
        report_from(v, lo)[k].1 == v.values[report_from(v, lo)[k].0 as int],
    decreases v.changed.len() - lo,
{
    if lo < v.changed.len() {
        if v.changed[lo] {
            if k > 0 {
                lemma_report_from_bounds(v, lo + 1, k - 1);
            }
        } else {
            lemma_report_from_bounds(v, lo + 1, k);
        }
    }
}

/// Reported indices grow strictly along a report.
proof fn lemma_report_from_increasing(v: ParamView, lo: int, k1: int, k2: int)
    requires
        v.changed.len() <= usize::MAX,
        0 <= lo <= v.changed.len(),
        0 <= k1 < k2 < report_from(v, lo).len(),
    ensures
        report_from(v, lo)[k1].0 < report_from(v, lo)[k2].0,
    decreases v.changed.len() - lo,
{
    if lo < v.changed.len() {
        if v.changed[lo] {
            if k1 == 0 {
                lemma_report_from_bounds(v, lo + 1, k2 - 1);
            } else {
                lemma_report_from_increasing(v, lo + 1, k1 - 1, k2 - 1);
            }
        } else {
            lemma_report_from_increasing(v, lo + 1, k1, k2);
        }
    }
}

/// How often an index is reported: once if it is at or after `lo` and
/// marked, never otherwise.
proof fn lemma_report_from_count(v: ParamView, lo: int, i: int)
    requires
        v.changed.len() <= usize::MAX,
        0 <= lo <= v.changed.len(),
        0 <= i < v.changed.len(),
    ensures
        index_count(report_from(v, lo), i) == if lo <= i && v.changed[i] {
            1nat
        } else {
            0nat
        },
    decreases v.changed.len() - lo,
{
    if lo < v.changed.len() {
        lemma_report_from_count(v, lo + 1, i);
        if v.changed[lo] {
            lemma_index_count_cons(
                (lo as usize, v.values[lo]),
                report_from(v, lo + 1),
                i,
            );
        }
    }
}

/// Prepending one entry adds one to the count of its index and nothing
/// to any other count.
proof fn lemma_index_count_cons(x: (usize, u32), s: Seq<(usize, u32)>, i: int)
    ensures
        index_count(seq![x] + s, i) == (if x.0 == i {
            1nat
        } else {
            0nat
        }) + index_count(s, i),
{
    let c = seq![x] + s;
    assert(c[0] == x);
    assert(c.drop_first() =~= s);
}

/// Bitmap word holding the presence bit of `index`, and that bit as a mask.
fn word_and_bit(index: usize) -> (r: (usize, u64))
    ensures
        r.0 == index as int / 64,
        r.1 == 1u64 << ((index as int % 64) as u64),
{
    proof {
        lemma_mod_division_less_than_divisor(index as int, 64);
    }
    (index / WORD_BITS, 1u64 << ((index % WORD_BITS) as u64))
}

/// An index below `n` lies in a word below `(n + 63) / 64`.
proof fn lemma_index_in_words(i: int, n: int)
    requires
        0 <= i < n,
    ensures
        0 <= i / 64 < (n + 63) / 64,
        0 <= i % 64 < 64,
{
    lemma_mod_division_less_than_divisor(i, 64);
    lemma_div_is_ordered(0, i, 64);
    lemma_div_is_ordered(i, n - 1, 64);
    lemma_div_plus_one(n - 1, 64);
}

/// An index below `words * 64` lies in a word below `words`.
proof fn lemma_div_word_range(i: int, words: int)
    requires
        0 <= i < words * 64,
    ensures
        0 <= i / 64 < words,
{
    lemma_div_is_ordered(0, i, 64);
    if i / 64 >= words {
        lemma_fundamental_div_mod(i, 64);
        lemma_mod_division_less_than_divisor(i, 64);
        assert(i == 64 * (i / 64) + i % 64);
        assert(64 * (i / 64) >= 64 * words) by (nonlinear_arith)
            requires
                i / 64 >= words,
        ;
    }
}

/// A word whose bits at or above `b` are all zero has bit `l` clear for `l >= b`.
proof fn lemma_shift_zero(w: u64, b: u64, l: u64)
    by (bit_vector)
    requires
        b <= l < 64,
        (w >> b) == 0,
    ensures
        (w >> l) & 1u64 == 0u64,
{
}

/// Two shifts compose into one shift by the sum.
proof fn lemma_shift_shift(w: u64, b: u64, t: u64, s: u64)
    by (bit_vector)
    requires
        b < 64,
        t < 64,
        s < 64,
        s == b + t,
    ensures
        ((w >> b) >> t) & 1u64 == (w >> s) & 1u64,
{
}

/// A set bit found after shifting by `b` lies below the word width.
proof fn lemma_tz_in_range(w: u64, b: u64, t: u64)
    by (bit_vector)
    requires
        b < 64,
        t < 64,
        ((w >> b) >> t) & 1u64 == 1u64,
    ensures
        b + t < 64,
{
}

/// Clearing bit `k` of a word leaves every other bit as it was.
proof fn lemma_clear_bit(w: u64, k: u64, j: u64)
    by (bit_vector)
    requires
        k < 64,
        j < 64,
    ensures
        ((w & !(1u64 << k)) >> j) & 1u64 == if j == k {
            0u64
        } else {
            (w >> j) & 1u64
        },
{
}

/// Setting bit `k` of a word leaves every other bit as it was.
proof fn lemma_or_bit(w: u64, k: u64, j: u64)
    by (bit_vector)
    requires
        k < 64,
        j < 64,
    ensures
        ((w | (1u64 << k)) >> j) & 1u64 == if j == k {
            1u64
        } else {
            (w >> j) & 1u64
        },
{
}

} // verus!
