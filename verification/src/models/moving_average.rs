use vstd::prelude::*;

verus! {

/// The sum of a sequence of samples.
pub open spec fn seq_sum(s: Seq<i32>) -> int
    decreases s.len(),
{
    if s.len() == 0 {
        0
    } else {
        seq_sum(s.drop_last()) + s.last()
    }
}

/// The sum of the squares of a sequence of samples.
pub open spec fn seq_sum_sq(s: Seq<i32>) -> int
    decreases s.len(),
{
    if s.len() == 0 {
        0
    } else {
        seq_sum_sq(s.drop_last()) + s.last() * s.last()
    }
}

/// Division rounded toward zero, as integer division does in Rust (`b > 0`).
pub open spec fn trunc_div(a: int, b: int) -> int {
    if a >= 0 {
        a / b
    } else {
        -((-a) / b)
    }
}

/// The mean of a non-empty sequence of samples, rounded toward zero.
pub open spec fn mean(s: Seq<i32>) -> int {
    trunc_div(seq_sum(s), s.len() as int)
}

/// `n²` times the variance of `s` (its mean squared deviation from the mean),
/// where `n` is the length of `s`: `n·Σx² − (Σx)²`.
pub open spec fn scaled_variance(s: Seq<i32>) -> int {
    s.len() * seq_sum_sq(s) - seq_sum(s) * seq_sum(s)
}

/// Whether the variance of `s` is below `threshold`, compared exactly:
/// `scaled_variance(s) / n² < threshold`.
pub open spec fn variance_below(s: Seq<i32>, threshold: int) -> bool {
    scaled_variance(s) < threshold * (s.len() * s.len())
}

/// The samples a filter of `window` samples keeps after `value` is added to
/// `s`: `s` with `value` appended, less its oldest sample when that makes
/// more than `window`.
pub open spec fn slide(s: Seq<i32>, value: i32, window: nat) -> Seq<i32> {
    if s.len() + 1 > window {
        s.push(value).drop_first()
    } else {
        s.push(value)
    }
}

/// The window a filter uses when asked for `w` samples: at least one.
pub open spec fn clamp_window(w: nat) -> nat {
    if w == 0 {
        1
    } else {
        w
    }
}

/// The sum of the squared deviations of the samples from `c`.
pub open spec fn seq_sum_sq_dev(s: Seq<i32>, c: int) -> int
    decreases s.len(),
{
    if s.len() == 0 {
        0
    } else {
        seq_sum_sq_dev(s.drop_last(), c) + (s.last() - c) * (s.last() - c)
    }
}

/// A moving-average filter over the last `window` samples (in milligrams).
#[derive(Debug)]
pub struct MovingAverage {
    window_size: usize,
    values: Vec<i32>,
    sum: i128,
}

impl View for MovingAverage {
    type V = Seq<i32>;

    /// The samples the filter holds, oldest first.
    closed spec fn view(&self) -> Seq<i32> {
        self.values@
    }
}

proof fn lemma_sum_bounds(s: Seq<i32>)
    ensures
        s.len() * (i32::MIN as int) <= seq_sum(s) <= s.len() * (i32::MAX as int),
        0 <= seq_sum_sq(s) <= s.len() * 0x4000_0000_0000_0000,
    decreases s.len(),
{
    if s.len() > 0 {
        lemma_sum_bounds(s.drop_last());
        let x = s.last();
        assert(0 <= x * x <= 0x4000_0000_0000_0000) by (nonlinear_arith)
            requires
                i32::MIN <= x <= i32::MAX,
        ;
    }
}

proof fn lemma_sum_drop_first(s: Seq<i32>)
    requires
        s.len() > 0,
    ensures
        seq_sum(s) == s[0] + seq_sum(s.drop_first()),
    decreases s.len(),
{
    let a = s.drop_last();
    if s.len() > 1 {
        lemma_sum_drop_first(a);
        assert(a.drop_first() =~= s.drop_first().drop_last());
        assert(s.drop_first().last() == s.last());
        assert(a[0] == s[0]);
        assert(seq_sum(s.drop_first()) == seq_sum(a.drop_first()) + s.last());
    } else {
        assert(a.len() == 0);
        assert(seq_sum(a) == 0);
        assert(s.drop_first() =~= Seq::<i32>::empty());
        assert(seq_sum(s.drop_first()) == 0);
    }
}

/// The mean of a non-empty sequence of samples is itself a 32-bit value.
pub proof fn lemma_mean_in_range(s: Seq<i32>)
    requires
        s.len() > 0,
    ensures
        i32::MIN <= mean(s) <= i32::MAX,
{
    lemma_sum_bounds(s);
    let n = s.len() as int;
    let t = seq_sum(s);
    if t >= 0 {
        assert(t / n <= i32::MAX) by (nonlinear_arith)
            requires
                0 <= t <= n * (i32::MAX as int),
                n > 0,
        ;
        assert(t / n >= 0) by (nonlinear_arith)
            requires
                0 <= t,
                n > 0,
        ;
    } else {
        assert((-t) / n <= -(i32::MIN as int)) by (nonlinear_arith)
            requires
                0 < -t <= n * (-(i32::MIN as int)),
                n > 0,
        ;
        assert((-t) / n >= 0) by (nonlinear_arith)
            requires
                0 < -t,
                n > 0,
        ;
    }
}

/// The squared deviations from `c` expand as `Σx² − 2c·Σx + n·c²`.
proof fn lemma_sq_dev_expand(s: Seq<i32>, c: int)
    ensures
        seq_sum_sq_dev(s, c) == seq_sum_sq(s) - 2 * c * seq_sum(s) + s.len() * c * c,
    decreases s.len(),
{
    if s.len() > 0 {
        let a = s.drop_last();
        lemma_sq_dev_expand(a, c);
        let y = s.last() as int;
        let n = a.len() as int;
        let q = seq_sum_sq(a);
        let t = seq_sum(a);
        assert(q - 2 * c * t + n * c * c + (y - c) * (y - c) == (q + y * y) - 2 * c * (t + y) + (n
            + 1) * c * c) by (nonlinear_arith);
    }
}

/// `n·Σx² ≥ (Σx)²`: the variance is never negative.
proof fn lemma_scaled_variance_nonneg(s: Seq<i32>)
    ensures
        scaled_variance(s) >= 0,
    decreases s.len(),
{
    if s.len() > 0 {
        let a = s.drop_last();
        lemma_scaled_variance_nonneg(a);
        let y = s.last() as int;
        let n = a.len() as int;
        let q = seq_sum_sq(a);
        let t = seq_sum(a);
        if n > 0 {
            assert(n * (q + n * y * y - 2 * t * y) >= (t - n * y) * (t - n * y)) by (nonlinear_arith)
                requires
                    n * q >= t * t,
            ;
            assert((t - n * y) * (t - n * y) >= 0) by (nonlinear_arith);
            assert(q + n * y * y - 2 * t * y >= 0) by (nonlinear_arith)
                requires
                    n > 0,
                    n * (q + n * y * y - 2 * t * y) >= 0,
            ;
        } else {
            assert(a.len() == 0);
            assert(q == 0 && t == 0);
        }
        assert((n + 1) * (q + y * y) - (t + y) * (t + y) == (n * q - t * t) + (q + n * y * y - 2
            * t * y)) by (nonlinear_arith);
    }
}

/// The mean rounded down: `c` with `n·c ≤ total < n·c + n`, computed from
/// the sum of `n` samples, lies within the samples' range.
proof fn lemma_floor_mean(total: int, n: int, c: int)
    requires
        n >= 1,
        n * (i32::MIN as int) <= total <= n * (i32::MAX as int),
        total >= 0 ==> c == total / n,
        total < 0 ==> c == -((-total + n - 1) / n),
    ensures
        0 <= total - n * c < n,
        i32::MIN <= c <= i32::MAX,
{
    if total >= 0 {
        vstd::arithmetic::div_mod::lemma_fundamental_div_mod(total, n);
        vstd::arithmetic::div_mod::lemma_mod_bound(total, n);
        let r = total % n;
        assert(0 <= total - n * c < n) by (nonlinear_arith)
            requires
                total == n * c + r,
                0 <= r < n,
        ;
    } else {
        let m = -total + n - 1;
        vstd::arithmetic::div_mod::lemma_fundamental_div_mod(m, n);
        vstd::arithmetic::div_mod::lemma_mod_bound(m, n);
        let q = m / n;
        let r = m % n;
        assert(0 <= total - n * c < n) by (nonlinear_arith)
            requires
                m == n * q + r,
                0 <= r < n,
                m == -total + n - 1,
                c == -q,
        ;
    }
    assert(c <= i32::MAX) by (nonlinear_arith)
        requires
            n >= 1,
            n * c <= total,
            total <= n * (i32::MAX as int),
    ;
    assert(c >= i32::MIN) by (nonlinear_arith)
        requires
            n >= 1,
            total < n * c + n,
            n * (i32::MIN as int) <= total,
    ;
}

/// The variance test done with deviations from the rounded-down mean `c`:
/// with `e = Σx − n·c` and `k = ⌈e²/n⌉`, the variance is below `t` exactly
/// when `Σ(x − c)² < t·n + k`.
proof fn lemma_variance_test(s: Seq<i32>, t: int, c: int, e: int, dev: int, k: int)
    requires
        s.len() >= 1,
        e == seq_sum(s) - s.len() * c,
        0 <= e < s.len(),
        dev == seq_sum_sq_dev(s, c),
        dev == seq_sum_sq(s) - 2 * c * seq_sum(s) + s.len() * c * c,
        k == (e * e + s.len() - 1) / (s.len() as int),
    ensures
        variance_below(s, t) <==> dev < t * s.len() + k,
{
    let n = s.len() as int;
    let q = seq_sum_sq(s);
    let total = seq_sum(s);
    assert(scaled_variance(s) == n * dev - e * e) by (nonlinear_arith)
        requires
            e == total - n * c,
            dev == q - 2 * c * total + n * c * c,
            scaled_variance(s) == n * q - total * total,
    ;
    let m = e * e + n - 1;
    vstd::arithmetic::div_mod::lemma_fundamental_div_mod(m, n);
    vstd::arithmetic::div_mod::lemma_mod_bound(m, n);
    assert(n * k >= e * e && n * (k - 1) < e * e) by (nonlinear_arith)
        requires
            m == n * k + m % n,
            0 <= m % n < n,
            m == e * e + n - 1,
    ;
    if dev < t * n + k {
        assert(n * dev - e * e < t * (n * n)) by (nonlinear_arith)
            requires
                n >= 1,
                dev <= t * n + k - 1,
                n * (k - 1) < e * e,
        ;
    } else {
        assert(n * dev - e * e >= t * (n * n)) by (nonlinear_arith)
            requires
                n >= 1,
                dev >= t * n + k,
                n * k >= e * e,
        ;
    }
}

impl MovingAverage {
    #[verifier::type_invariant]
    spec fn wf(self) -> bool {
        &&& 1 <= self.window_size
        &&& self.values@.len() <= self.window_size
        &&& self.sum == seq_sum(self.values@)
    }

    /// The number of samples the filter averages over.
    pub closed spec fn window(&self) -> nat {
        self.window_size as nat
    }

    /// An empty filter over `window_size` samples, taken as at least 1.
    pub fn new(window_size: usize) -> (r: Self)
        ensures
            r@ == Seq::<i32>::empty(),
            r.window() == clamp_window(window_size as nat),
    {
        let w = if window_size == 0 {
            1
        } else {
            window_size
        };
        MovingAverage { window_size: w, values: Vec::new(), sum: 0 }
    }

    /// Adds a sample and gives the mean of the samples now held.
    pub fn add(&mut self, value: i32) -> (avg: i32)
        ensures
            final(self).window() == old(self).window(),
            final(self)@ == slide(old(self)@, value, old(self).window()),
            0 < final(self)@.len() <= final(self).window(),
            avg == mean(final(self)@),
    {
        proof {
            use_type_invariant(&*self);
            lemma_sum_bounds(self.values@);
        }
        let mut tmp = MovingAverage { window_size: self.window_size, values: Vec::new(), sum: 0 };
        std::mem::swap(&mut tmp, self);
        let MovingAverage { window_size, mut values, mut sum } = tmp;
        let ghost old_vals = values@;
        values.push(value);
        assert(values@.drop_last() =~= old_vals);
        assert(seq_sum(values@) == seq_sum(old_vals) + value);
        sum = sum + value as i128;
        if values.len() > window_size {
            proof {
                lemma_sum_drop_first(values@);
            }
            let ghost pushed = values@;
            let removed = values.remove(0);
            assert(removed == pushed[0]);
            assert(values@ =~= pushed.drop_first());
            assert(values@ =~= old_vals.push(value).drop_first());
            sum = sum - removed as i128;
        }
        proof {
            lemma_mean_in_range(values@);
        }
        let n = values.len();
        *self = MovingAverage { window_size, values, sum };
        (sum / (n as i128)) as i32
    }

    /// The mean of the samples held, if any.
    pub fn average(&self) -> (r: Option<i32>)
        ensures
            r == if self@.len() == 0 {
                None::<i32>
            } else {
                Some(mean(self@) as i32)
            },
            self@.len() > 0 ==> i32::MIN <= mean(self@) <= i32::MAX,
    {
        proof {
            use_type_invariant(self);
        }
        if self.values.len() == 0 {
            None
        } else {
            proof {
                lemma_mean_in_range(self.values@);
            }
            Some((self.sum / (self.values.len() as i128)) as i32)
        }
    }

    /// Forgets every sample; the window is kept.
    pub fn reset(&mut self)
        ensures
            final(self)@ == Seq::<i32>::empty(),
            final(self).window() == old(self).window(),
    {
        proof {
            use_type_invariant(&*self);
        }
        *self = MovingAverage { window_size: self.window_size, values: Vec::new(), sum: 0 };
    }

    /// Whether the filter is full and the variance of its samples
    /// (in square milligrams) is below `threshold`.
    pub fn is_stable(&self, threshold: i64) -> (r: bool)
        ensures
            r == (self@.len() >= self.window() && variance_below(self@, threshold as int)),
    {
        proof {
            use_type_invariant(self);
            lemma_sum_bounds(self.values@);
        }
        if self.values.len() < self.window_size {
            return false;
        }
        let n = self.values.len();
        if threshold <= 0 {
            proof {
                lemma_scaled_variance_nonneg(self.values@);
                assert(threshold * (n * n) <= 0) by (nonlinear_arith)
                    requires
                        threshold <= 0,
            ;
            }
            return false;
        }
        // Deviations are taken from the mean rounded down, `c`, so that
        // n·Σx² − (Σx)² = n·Σ(x − c)² − e² with e = Σx − n·c in [0, n),
        // and every quantity fits 128 bits.
        let ni = n as i128;
        let total = self.sum;
        let c: i128 = if total >= 0 {
            total / ni
        } else {
            -((-total + ni - 1) / ni)
        };
        proof {
            lemma_floor_mean(total as int, ni as int, c as int);
        }
        let e: u128 = (total - ni * c) as u128;
        let mut dev: u128 = 0;
        let mut i: usize = 0;
        while i < n
            invariant
                n == self.values@.len(),
                i <= n,
                i32::MIN <= c <= i32::MAX,
                dev == seq_sum_sq_dev(self.values@.take(i as int), c as int),
                dev <= i * 0xffff_fffe_0000_0001,
            decreases n - i,
        {
            let x = self.values[i];
            let d: i64 = x as i64 - c as i64;
            proof {
                assert(self.values@.take(i + 1).drop_last() =~= self.values@.take(i as int));
                assert(0 <= d * d <= 0xffff_fffe_0000_0001) by (nonlinear_arith)
                    requires
                        -0xffff_ffff <= d <= 0xffff_ffff,
                ;
                assert((i + 1) * 0xffff_fffe_0000_0001 <= 0xffff_ffff_ffff_ffff
                    * 0xffff_fffe_0000_0001) by (nonlinear_arith)
                    requires
                        i + 1 <= 0xffff_ffff_ffff_ffff,
                ;
            }
            let dd: u128 = (d as i128 * d as i128) as u128;
            dev = dev + dd;
            i = i + 1;
        }
        assert(self.values@.take(n as int) =~= self.values@);
        let nu = n as u128;
        proof {
            assert(e * e + nu - 1 <= nu * nu) by (nonlinear_arith)
                requires
                    0 <= e < nu,
            ;
            assert(nu * nu <= 0xffff_ffff_ffff_ffff * 0xffff_ffff_ffff_ffff) by (nonlinear_arith)
                requires
                    1 <= nu <= 0xffff_ffff_ffff_ffff,
            ;
            assert((threshold as int) * nu <= 0x7fff_ffff_ffff_ffff * 0xffff_ffff_ffff_ffff)
                by (nonlinear_arith)
                requires
                    0 < threshold <= 0x7fff_ffff_ffff_ffff,
                    1 <= nu <= 0xffff_ffff_ffff_ffff,
            ;
            vstd::arithmetic::div_mod::lemma_div_is_ordered(
                e * e + nu - 1,
                (nu as int) * (nu as int),
                nu as int,
            );
            vstd::arithmetic::div_mod::lemma_div_by_multiple(nu as int, nu as int);
            vstd::arithmetic::div_mod::lemma_div_pos_is_pos(e * e + nu - 1, nu as int);
        }
        let k: u128 = (e * e + nu - 1) / nu;
        let bound: u128 = (threshold as u128) * nu + k;
        proof {
            lemma_sq_dev_expand(self.values@, c as int);
            lemma_variance_test(
                self.values@,
                threshold as int,
                c as int,
                e as int,
                dev as int,
                k as int,
            );
        }
        dev < bound
    }
}

/// The samples a filter of `window` samples holds after the samples of
/// `history` were added, one by one, to an empty filter.
pub open spec fn replay(history: Seq<i32>, window: nat) -> Seq<i32>
    decreases history.len(),
{
    if history.len() == 0 {
        Seq::empty()
    } else {
        slide(replay(history.drop_last(), window), history.last(), window)
    }
}

/// The last `n` samples of `history` (all of them when there are fewer).
pub open spec fn last_n(history: Seq<i32>, n: nat) -> Seq<i32> {
    if history.len() > n {
        history.subrange(history.len() - n, history.len() as int)
    } else {
        history
    }
}

/// The filter averages the most recent samples: after any sequence of
/// samples added to an empty filter, it holds exactly the last `window` of
/// them, oldest first (so `add` and `average` give their mean).
pub proof fn lemma_filter_holds_last_samples(history: Seq<i32>, window: nat)
    requires
        window >= 1,
    ensures
        replay(history, window) == last_n(history, window),
    decreases history.len(),
{
    if history.len() > 0 {
        let prev = history.drop_last();
        lemma_filter_holds_last_samples(prev, window);
        let x = history.last();
        if prev.len() + 1 > window {
            if prev.len() > window {
                assert(last_n(prev, window).push(x).drop_first() =~= last_n(history, window));
            } else {
                assert(prev.push(x).drop_first() =~= last_n(history, window));
            }
        } else {
            assert(prev.push(x) =~= history);
        }
    }
}

} // verus!
