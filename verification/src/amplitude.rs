//! The windowed amplitude estimator: a stateful accumulator that turns an
//! arbitrarily chunked stream of fixed-point samples into one root-mean-
//! square loudness value per full window, in order, keeping partial windows
//! for the next call. Samples are signed 32-bit fixed-point values; each
//! window's value is the integer square root of the mean of the squares.

use vstd::prelude::*;

use crate::isqrt_u64;

verus! {

/// The sum of the squares of the samples.
pub open spec fn sum_sq(s: Seq<i32>) -> int
    decreases s.len(),
{
    if s.len() == 0 {
        0
    } else {
        sum_sq(s.drop_last()) + s.last() * s.last()
    }
}

/// Whether `r` is the integer square root of `n`, rounded down.
pub open spec fn is_sqrt_floor(n: int, r: int) -> bool {
    0 <= r && r * r <= n && (r + 1) * (r + 1) > n
}

/// The largest `r` with `r * r <= n`.
pub open spec fn sqrt_floor(n: int) -> int {
    choose|r: int| is_sqrt_floor(n, r)
}

pub proof fn lemma_sqrt_floor_is(n: int, r: int)
    requires
        0 <= r,
        r * r <= n,
        (r + 1) * (r + 1) > n,
    ensures
        sqrt_floor(n) == r,
{
    assert(exists|q: int| is_sqrt_floor(n, q)) by {
        assert(is_sqrt_floor(n, r));
    }
    let q = sqrt_floor(n);
    if q < r {
        assert((q + 1) * (q + 1) <= r * r) by (nonlinear_arith)
            requires
                0 <= q,
                q + 1 <= r,
        ;
        assert(false);
    }
    if q > r {
        assert((r + 1) * (r + 1) <= q * q) by (nonlinear_arith)
            requires
                0 <= r,
                r + 1 <= q,
        ;
        assert(false);
    }
}

/// The loudness value of one full window: the integer square root of the
/// mean square of its samples.
pub open spec fn rms_of(w: Seq<i32>) -> int
    recommends
        w.len() >= 1,
{
    sqrt_floor(sum_sq(w) / w.len() as int)
}

/// The values of a `u64` sequence, as mathematical integers.
pub open spec fn as_ints(s: Seq<u64>) -> Seq<int> {
    s.map_values(|v: u64| v as int)
}

/// One loudness value per full window of `w` samples of `s`, in order;
/// trailing samples short of a window contribute nothing.
pub open spec fn window_rms_seq(s: Seq<i32>, w: int) -> Seq<int>
    decreases s.len(),
    when w >= 1
{
    if s.len() < w {
        Seq::empty()
    } else {
        seq![rms_of(s.take(w))] + window_rms_seq(s.skip(w), w)
    }
}

pub proof fn lemma_wrs_len(s: Seq<i32>, w: int)
    requires
        w >= 1,
    ensures
        0 <= window_rms_seq(s, w).len() * w <= s.len(),
    decreases s.len(),
{
    if s.len() >= w {
        lemma_wrs_len(s.skip(w), w);
        let k = window_rms_seq(s.skip(w), w).len();
        assert((k + 1) * w == k * w + w) by (nonlinear_arith);
    }
}

/// Windows respect concatenation at window boundaries: a stream whose length
/// is a whole number of windows contributes its windows first, and what
/// follows is windowed on its own.
pub proof fn lemma_wrs_concat_full(a: Seq<i32>, b: Seq<i32>, w: int)
    requires
        w >= 1,
        a.len() as int % w == 0,
    ensures
        window_rms_seq(a + b, w) == window_rms_seq(a, w) + window_rms_seq(b, w),
    decreases a.len(),
{
    if a.len() == 0 {
        assert(a + b =~= b);
        assert(window_rms_seq(a, w) + window_rms_seq(b, w) =~= window_rms_seq(b, w));
    } else {
        assert(a.len() >= w) by {
            if a.len() < w {
                vstd::arithmetic::div_mod::lemma_small_mod(a.len(), w as nat);
            }
        }
        assert((a + b).len() >= w);
        assert((a + b).take(w) =~= a.take(w));
        assert((a + b).skip(w) =~= a.skip(w) + b);
        assert(a.skip(w).len() as int % w == 0) by {
            assert(a.len() as int == (a.len() as int - w) + 1 * w);
            vstd::arithmetic::div_mod::lemma_mod_multiples_vanish(1, a.len() as int - w, w);
        }
        lemma_wrs_concat_full(a.skip(w), b, w);
        assert(window_rms_seq(a + b, w) =~= window_rms_seq(a, w) + window_rms_seq(b, w));
    }
}

/// The windows of a stream are the windows of its full-window prefix.
pub proof fn lemma_wrs_ignores_partial(s: Seq<i32>, w: int, k: int)
    requires
        w >= 1,
        0 <= k * w <= s.len(),
        window_rms_seq(s, w).len() == k,
    ensures
        window_rms_seq(s.take(k * w), w) == window_rms_seq(s, w),
        window_rms_seq(s.skip(k * w), w) == Seq::<int>::empty(),
    decreases s.len(),
{
    let full = s.take(k * w);
    let rest = s.skip(k * w);
    assert(full.len() as int % w == 0) by {
        vstd::arithmetic::div_mod::lemma_mod_multiples_basic(k, w);
    }
    assert(s =~= full + rest);
    lemma_wrs_concat_full(full, rest, w);
    lemma_wrs_len(full, w);
    if window_rms_seq(rest, w).len() > 0 {
        let m = window_rms_seq(full, w).len() as int;
        assert(k == m + window_rms_seq(rest, w).len());
        assert(m < k);
        assert(m * w + w <= k * w) by (nonlinear_arith)
            requires
                m + 1 <= k,
                w >= 1,
        ;
        lemma_wrs_all_or_more(full, w, m);
        assert(false);
    }
    assert(window_rms_seq(full, w) =~= window_rms_seq(s, w));
    assert(window_rms_seq(rest, w) =~= Seq::<int>::empty());
}

/// A stream of length at least `(m + 1) * w` has more than `m` windows.
proof fn lemma_wrs_all_or_more(s: Seq<i32>, w: int, m: int)
    requires
        w >= 1,
        window_rms_seq(s, w).len() == m,
    ensures
        s.len() < m * w + w,
    decreases s.len(),
{
    if s.len() < w {
        assert(m == 0);
    } else {
        lemma_wrs_all_or_more(s.skip(w), w, m - 1);
        assert((m - 1) * w + w == m * w) by (nonlinear_arith);
    }
}

/// Splitting a sample stream across two calls loses and reorders nothing:
/// the windows of the whole stream are the windows of the first part
/// followed by the windows of the first part's leftover joined with the
/// second part. This is the alignment property of the estimator: `feed`
/// produces per call exactly these two output sequences.
pub proof fn lemma_window_alignment(s: Seq<i32>, i: int, w: int)
    requires
        w >= 1,
        0 <= i <= s.len(),
    ensures
        window_rms_seq(s, w) == window_rms_seq(s.take(i), w) + window_rms_seq(
            s.take(i).skip(window_rms_seq(s.take(i), w).len() * w) + s.skip(i),
            w,
        ),
{
    let a = s.take(i);
    let k = window_rms_seq(a, w).len() as int;
    lemma_wrs_len(a, w);
    lemma_wrs_ignores_partial(a, w, k);
    let full = a.take(k * w);
    let rem = a.skip(k * w);
    assert(s =~= full + (rem + s.skip(i)));
    assert(full.len() as int % w == 0) by {
        vstd::arithmetic::div_mod::lemma_mod_multiples_basic(k, w);
    }
    lemma_wrs_concat_full(full, rem + s.skip(i), w);
}

/// RMS of silence is exactly zero: a window of zero samples, of any length,
/// has loudness 0.
pub proof fn lemma_rms_of_zeros(n: int)
    requires
        n >= 1,
    ensures
        rms_of(Seq::new(n as nat, |i: int| 0i32)) == 0,
    decreases n,
{
    let z = Seq::new(n as nat, |i: int| 0i32);
    lemma_sum_sq_zeros(z);
    assert(sum_sq(z) / n == 0);
    lemma_sqrt_floor_is(0, 0);
}

proof fn lemma_sum_sq_zeros(s: Seq<i32>)
    requires
        forall|i: int| 0 <= i < s.len() ==> s[i] == 0i32,
    ensures
        sum_sq(s) == 0,
    decreases s.len(),
{
    if s.len() > 0 {
        lemma_sum_sq_zeros(s.drop_last());
    }
}

/// The windowed amplitude estimator. `window` is the fixed window size in
/// samples; `buf` holds the partial window carried between calls.
pub struct AmplitudeEstimator {
    pub window: usize,
    pub buf: Vec<i32>,
}

impl AmplitudeEstimator {
    /// A window is at least one sample, and the carry never holds a full
    /// window.
    pub open spec fn wf(&self) -> bool {
        self.window >= 1 && self.buf@.len() < self.window
    }

    pub fn new(window: usize) -> (r: Self)
        requires
            window >= 1,
        ensures
            r.wf(),
            r.window == window,
            r.buf@ == Seq::<i32>::empty(),
    {
        AmplitudeEstimator { window, buf: Vec::new() }
    }

    /// One loudness value for the full window in `self.buf`.
    fn window_value(&self) -> (r: u64)
        requires
            self.window >= 1,
            self.buf@.len() == self.window,
        ensures
            r == rms_of(self.buf@),
    {
        let w = self.window;
        let mut sum: u128 = 0;
        for j in 0..w
            invariant
                w == self.window,
                self.buf@.len() == w,
                w >= 1,
                sum == sum_sq(self.buf@.take(j as int)),
                sum <= j * 0x4000_0000_0000_0000,
        {
            let x: i64 = self.buf[j] as i64;
            proof {
                assert(0 <= x * x <= 0x4000_0000_0000_0000) by (nonlinear_arith)
                    requires
                        -0x8000_0000 <= x <= 0x7fff_ffff,
                ;
            }
            let sq: u128 = (x * x) as u128;
            proof {
                let b = self.buf@;
                assert(b.take(j + 1).drop_last() =~= b.take(j as int));
                assert(b.take(j + 1).last() == b[j as int]);
                assert(j * 0x4000_0000_0000_0000 + 0x4000_0000_0000_0000 == (j + 1)
                    * 0x4000_0000_0000_0000) by (nonlinear_arith);
                assert((j + 1) * 0x4000_0000_0000_0000 <= 0xffff_ffff_ffff_ffff
                    * 0x4000_0000_0000_0000) by (nonlinear_arith)
                    requires
                        0 <= j + 1 <= 0xffff_ffff_ffff_ffffu64,
                ;
            }
            sum = sum + sq;
        }
        proof {
            assert(self.buf@.take(w as int) =~= self.buf@);
        }
        let mean: u128 = sum / (w as u128);
        proof {
            assert(sum / (w as u128) <= 0x4000_0000_0000_0000) by (nonlinear_arith)
                requires
                    w >= 1,
                    0 <= sum <= (w as u128) * 0x4000_0000_0000_0000,
            ;
        }
        let r = isqrt_u64(mean as u64);
        proof {
            lemma_sqrt_floor_is(mean as int, r as int);
        }
        r
    }

    /// Feeds one chunk of samples. The values that come out are exactly the
    /// windows completed by this chunk, in order; the remainder is carried
    /// for the next call. Chunk boundaries leave no trace: over any split of
    /// the same stream, the concatenated outputs agree
    /// (`lemma_window_alignment`).
    pub fn feed(&mut self, samples: &[i32]) -> (out: Vec<u64>)
        requires
            old(self).wf(),
        ensures
            final(self).wf(),
            final(self).window == old(self).window,
            as_ints(out@) == window_rms_seq(old(self).buf@ + samples@, old(self).window as int),
            final(self).buf@ == (old(self).buf@ + samples@).skip(
                out@.len() * old(self).window as int,
            ),
    {
        let w = self.window;
        let ghost total = old(self).buf@ + samples@;
        let n = samples.len();
        let mut out: Vec<u64> = Vec::new();
        proof {
            assert(total.take(old(self).buf@.len() as int) =~= old(self).buf@);
            assert(window_rms_seq(old(self).buf@, w as int) =~= Seq::<int>::empty()) by {
                assert(old(self).buf@.len() < w);
            }
            assert(as_ints(out@) =~= Seq::<int>::empty());
            assert(old(self).buf@.skip(0) =~= old(self).buf@);
        }
        for i in 0..n
            invariant
                w == self.window,
                w >= 1,
                n == samples@.len(),
                total == old(self).buf@ + samples@,
                old(self).buf@.len() < w,
                self.buf@.len() < w,
                self.buf@ == total.take(old(self).buf@.len() + i).skip(out@.len() * w as int),
                as_ints(out@) == window_rms_seq(total.take(old(self).buf@.len() + i), w as int),
                out@.len() * w <= old(self).buf@.len() + i,
        {
            let ghost p = total.take(old(self).buf@.len() + i);
            let ghost k = out@.len() as int;
            self.buf.push(samples[i]);
            proof {
                assert(total[old(self).buf@.len() + i] == samples@[i as int]);
                assert(p.push(samples@[i as int]) =~= total.take(old(self).buf@.len() + i + 1));
                assert(p.skip(k * w).push(samples@[i as int]) =~= total.take(
                    old(self).buf@.len() + i + 1,
                ).skip(k * w));
            }
            let ghost pnext = total.take(old(self).buf@.len() + i + 1);
            if self.buf.len() == w {
                let value = self.window_value();
                proof {
                    assert(self.buf@ =~= p.skip(k * w).push(samples@[i as int]));
                    assert(value == rms_of(pnext.skip(k * w)));
                }
                let ghost out0 = out@;
                out.push(value);
                self.buf.clear();
                proof {
                    assert(out@ =~= out0.push(value));
                    assert(as_ints(out@) =~= as_ints(out0).push(value as int));
                    // pnext splits into k full windows and one more full window
                    let full = pnext.take(k * w);
                    assert(full.len() as int % (w as int) == 0) by {
                        vstd::arithmetic::div_mod::lemma_mod_multiples_basic(k, w as int);
                    }
                    assert(pnext =~= full + pnext.skip(k * w));
                    assert(pnext.skip(k * w).len() == w);
                    lemma_wrs_concat_full(full, pnext.skip(k * w), w as int);
                    assert(full =~= p.take(k * w));
                    lemma_wrs_ignores_partial(p, w as int, k);
                    assert(window_rms_seq(full, w as int) == window_rms_seq(p, w as int));
                    let win = pnext.skip(k * w);
                    assert(win.take(w as int) =~= win);
                    assert(win.skip(w as int) =~= Seq::<i32>::empty());
                    assert(rms_of(win.take(w as int)) == rms_of(win));
                    assert(window_rms_seq(win.skip(w as int), w as int) =~= Seq::<int>::empty());
                    assert(window_rms_seq(win, w as int) == seq![rms_of(win.take(w as int))]
                        + window_rms_seq(win.skip(w as int), w as int));
                    assert(window_rms_seq(win, w as int) =~= seq![rms_of(win)]);
                    assert(as_ints(out@) =~= window_rms_seq(p, w as int) + seq![
                        rms_of(pnext.skip(k * w)),
                    ]);
                    assert((k + 1) * w == k * w + w) by (nonlinear_arith);
                    assert(self.buf@ =~= pnext.skip((k + 1) * w));
                }
            } else {
                proof {
                    // no window completed: pnext's windows are p's windows
                    let full = p.take(k * w);
                    assert(full.len() as int % (w as int) == 0) by {
                        vstd::arithmetic::div_mod::lemma_mod_multiples_basic(k, w as int);
                    }
                    lemma_wrs_ignores_partial(p, w as int, k);
                    assert(pnext =~= full + pnext.skip(k * w));
                    lemma_wrs_concat_full(full, pnext.skip(k * w), w as int);
                    assert(pnext.skip(k * w).len() < w);
                    assert(window_rms_seq(pnext.skip(k * w), w as int) =~= Seq::<int>::empty());
                    assert(window_rms_seq(pnext, w as int) =~= window_rms_seq(p, w as int));
                }
            }
        }
        proof {
            assert(total.take(old(self).buf@.len() + n) =~= total);
        }
        out
    }
}

} // verus!
