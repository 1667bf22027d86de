//! The HX711 load-cell logic: decoding samples, converting them to weights,
//! filtering, calibration and stability checks.  The caller clocks the
//! converter and hands over what it read.
use crate::errors::SensorError;
use crate::models::moving_average::{clamp_window, mean, slide, trunc_div, variance_below};
use crate::models::{MovingAverage, WeightReading};
use vstd::prelude::*;

verus! {

/// Number of data bits the HX711 shifts out per sample.
pub const HX711_BITS: usize = 24;

/// Number of samples averaged by a calibration.
pub const CALIBRATION_SAMPLES: usize = 10;

/// Fewest readings a stability check accepts.
pub const MIN_STABILITY_READINGS: usize = 5;

/// Variance (in square milligrams) below which the filtered signal counts as
/// settled: 0.5 g².
pub const STABILITY_VARIANCE: i64 = 500_000;

/// How many times a weight read is attempted.
pub const READ_ATTEMPTS: usize = 3;

/// How many times a health check tries to read a sample.
pub const HEALTH_READ_ATTEMPTS: usize = 3;

/// What to do after an attempt.
#[derive(Debug, Clone, PartialEq, Eq)]
pub enum AttemptStep<T> {
    /// Stop with this outcome.
    Finish(T),
    /// Wait briefly and try again.
    Retry,
}

/// After attempt number `attempt` (from 0) of a weight read gave `result`:
/// a reading ends the read; a failure is retried until three attempts were
/// made, and the last failure is the outcome.
pub open spec fn read_attempt_step(attempt: usize, result: Result<WeightReading, SensorError>) -> AttemptStep<
    Result<WeightReading, SensorError>,
> {
    match result {
        Ok(r) => AttemptStep::Finish(Ok(r)),
        Err(e) => if attempt + 1 < READ_ATTEMPTS {
            AttemptStep::Retry
        } else {
            AttemptStep::Finish(Err(e))
        },
    }
}

/// After attempt number `attempt` (from 0) of a health check's sample read
/// gave `result`: a sample means healthy; a timeout is retried while
/// attempts remain, after which the sensor counts as failing to read; any
/// other failure is the outcome.
pub open spec fn health_attempt_step(attempt: usize, result: Result<i32, SensorError>) -> AttemptStep<
    Result<(), SensorError>,
> {
    match result {
        Ok(_) => AttemptStep::Finish(Ok(())),
        Err(SensorError::Timeout) => if attempt + 1 < HEALTH_READ_ATTEMPTS {
            AttemptStep::Retry
        } else {
            AttemptStep::Finish(Err(SensorError::ReadFailure))
        },
        Err(e) => AttemptStep::Finish(Err(e)),
    }
}

/// The scale's default maximum, in milligrams.
pub const DEFAULT_MAX_WEIGHT: i32 = 100_000;

/// The unsigned value of bits shifted in most significant first.
pub open spec fn bits_value(bits: Seq<bool>) -> int
    decreases bits.len(),
{
    if bits.len() == 0 {
        0
    } else {
        2 * bits_value(bits.drop_last()) + if bits.last() {
            1int
        } else {
            0int
        }
    }
}

/// A 24-bit two's-complement value read as a signed integer.
pub open spec fn sign_extend_24(v: int) -> int {
    if v >= 0x80_0000 {
        v - 0x100_0000
    } else {
        v
    }
}

/// The raw sample that 24 data bits encode.
pub open spec fn raw_from_bits(bits: Seq<bool>) -> int {
    sign_extend_24(bits_value(bits))
}

/// `a / b` rounded toward zero, for any nonzero `b`.
pub open spec fn trunc_div_signed(a: int, b: int) -> int {
    if b > 0 {
        trunc_div(a, b)
    } else {
        -trunc_div(a, -b)
    }
}

/// The weight in milligrams of `counts` raw counts above the zero point,
/// with `factor` thousandths of a count per gram (nonzero), rounded toward
/// zero.
pub open spec fn counts_to_mg(counts: int, factor: int) -> int {
    trunc_div_signed(counts * 1_000_000, factor)
}

/// Whether the exact weight `counts · 10⁶ / factor` milligrams (for a
/// nonzero `factor`) lies outside `[0, max]`: below zero when counts and
/// factor have opposite signs, above `max` when the quotient exceeds it.
pub open spec fn weight_out_of_range(counts: int, factor: int, max: int) -> bool {
    ||| counts * factor < 0
    ||| (factor > 0 && counts * 1_000_000 > max * factor)
    ||| (factor < 0 && counts * 1_000_000 < max * factor)
}

/// `a / b` rounded away from zero, for a positive `b`.
pub open spec fn div_away_from_zero(a: int, b: int) -> int {
    if a >= 0 {
        (a + b - 1) / b
    } else {
        -((-a + b - 1) / b)
    }
}

/// The sum of a sequence of raw samples, each taken less `offset`.
pub open spec fn sum_minus(s: Seq<i32>, offset: int) -> int
    decreases s.len(),
{
    if s.len() == 0 {
        0
    } else {
        sum_minus(s.drop_last(), offset) + (s.last() - offset)
    }
}

/// Whether every reading is within `tolerance` of the readings' mean,
/// compared exactly: `|r − Σ/n| ≤ tolerance`, i.e. `|n·r − Σ| ≤ n·tolerance`.
pub open spec fn all_within(s: Seq<i32>, tolerance: int) -> bool {
    let n = s.len() as int;
    let total = crate::models::moving_average::seq_sum(s);
    forall|i: int| 0 <= i < n ==> #[trigger] abs_int(n * s[i] - total) <= n * tolerance
}

/// The absolute value.
pub open spec fn abs_int(x: int) -> int {
    if x < 0 {
        -x
    } else {
        x
    }
}

/// Whether a series of readings counts as stable: at least five readings,
/// all within `tolerance` of their mean.
pub open spec fn readings_stable(s: Seq<i32>, tolerance: int) -> bool {
    s.len() >= MIN_STABILITY_READINGS && all_within(s, tolerance)
}

/// The step after attempt `attempt` of a weight read.
pub fn read_attempt_outcome(attempt: usize, result: Result<WeightReading, SensorError>) -> (r: AttemptStep<
    Result<WeightReading, SensorError>,
>)
    ensures
        r == read_attempt_step(attempt, result),
{
    match result {
        Ok(reading) => AttemptStep::Finish(Ok(reading)),
        Err(e) => {
            if attempt < READ_ATTEMPTS - 1 {
                AttemptStep::Retry
            } else {
                AttemptStep::Finish(Err(e))
            }
        },
    }
}

/// The step after attempt `attempt` of a health check's sample read.
pub fn health_attempt_outcome(attempt: usize, result: Result<i32, SensorError>) -> (r: AttemptStep<
    Result<(), SensorError>,
>)
    ensures
        r == health_attempt_step(attempt, result),
{
    match result {
        Ok(_) => AttemptStep::Finish(Ok(())),
        Err(SensorError::Timeout) => {
            if attempt < HEALTH_READ_ATTEMPTS - 1 {
                AttemptStep::Retry
            } else {
                AttemptStep::Finish(Err(SensorError::ReadFailure))
            }
        },
        Err(e) => AttemptStep::Finish(Err(e)),
    }
}

proof fn lemma_bits_bound(bits: Seq<bool>)
    ensures
        0 <= bits_value(bits) < pow2(bits.len()),
    decreases bits.len(),
{
    if bits.len() > 0 {
        lemma_bits_bound(bits.drop_last());
    }
}

/// `2^n`.
pub open spec fn pow2(n: nat) -> int
    decreases n,
{
    if n == 0 {
        1
    } else {
        2 * pow2((n - 1) as nat)
    }
}

/// What converting the raw sample `raw` taken at `timestamp` does: `a` is
/// the sensor before and `b` after, `r` the outcome.  The calibration,
/// zero point, range and filter window are kept.  The sample less the zero
/// point is divided by the calibration factor.  An exact weight below 0 or
/// above the maximum is refused as out of range (the error carrying the
/// weight rounded toward zero) and leaves the filter unchanged.  With a
/// zero calibration factor a nonzero count is an infinite weight, refused
/// as out of range with the extreme value of its sign; zero counts over a
/// zero factor have no weight and are refused as an invalid reading.
/// Otherwise the weight, rounded toward zero to whole milligrams, enters
/// the filter and the reading carries the filter's mean, stable when the
/// filter is full and its variance is below 0.5 g².
pub open spec fn read_outcome(
    a: SensorModel,
    raw: i32,
    timestamp: u64,
    b: SensorModel,
    r: Result<WeightReading, SensorError>,
) -> bool {
    &&& b.calibration_factor == a.calibration_factor
    &&& b.zero_offset == a.zero_offset
    &&& b.max_weight == a.max_weight
    &&& b.window == a.window
    &&& ({
        let counts = raw - a.zero_offset;
        let f = a.calibration_factor as int;
        let max = a.max_weight;
        let w = counts_to_mg(counts, f);
        if f == 0 {
            &&& r == Err::<WeightReading, SensorError>(
                if counts == 0 {
                    SensorError::InvalidReading(0)
                } else if counts > 0 {
                    SensorError::OutOfRange { value: i64::MAX, max: max as i64 }
                } else {
                    SensorError::OutOfRange { value: i64::MIN, max: max as i64 }
                },
            )
            &&& b.filter == a.filter
        } else if weight_out_of_range(counts, f, max as int) {
            &&& r == Err::<WeightReading, SensorError>(
                SensorError::OutOfRange { value: w as i64, max: max as i64 },
            )
            &&& b.filter == a.filter
        } else {
            let vals = slide(
                a.filter,
                w as i32,
                a.window,
            );
            &&& 0 <= w <= max
            &&& b.filter == vals
            &&& r matches Ok(reading) && reading == (WeightReading {
                value: mean(vals) as i32,
                timestamp,
                is_stable: vals.len() >= a.window
                    && variance_below(vals, STABILITY_VARIANCE as int),
            })
        }
    })
}

/// What a zero calibration from `samples` does (`a` before, `b` after):
/// the zero point becomes their mean, rounded toward zero, the filter is
/// emptied, and the calibration factor, range and window are kept.
pub open spec fn zero_calibration(
    a: SensorModel,
    samples: Seq<i32>,
    b: SensorModel,
) -> bool {
    &&& b.zero_offset == trunc_div(sum_minus(samples, 0), CALIBRATION_SAMPLES as int)
    &&& b.filter == Seq::<i32>::empty()
    &&& b.window == a.window
    &&& b.calibration_factor == a.calibration_factor
    &&& b.max_weight == a.max_weight
}

/// What a calibration against `known_weight` milligrams from `samples`
/// does (`a` before, `b` after, `r` the outcome): a known weight of zero or
/// less is refused and changes nothing; otherwise the factor becomes the
/// samples' sum above the zero point, times 100 000, over the known weight,
/// rounded away from zero, and the calibration succeeds exactly when that
/// sum is positive.  The zero point, range and filter are kept.
pub open spec fn known_weight_calibration(
    a: SensorModel,
    known_weight: i32,
    samples: Seq<i32>,
    b: SensorModel,
    r: Result<(), SensorError>,
) -> bool {
    &&& b.zero_offset == a.zero_offset
    &&& b.max_weight == a.max_weight
    &&& b.filter == a.filter
    &&& b.window == a.window
    &&& known_weight <= 0 ==> r == Err::<(), SensorError>(SensorError::CalibrationFailed)
        && b.calibration_factor == a.calibration_factor
    &&& known_weight > 0 ==> {
        let sum = sum_minus(samples, a.zero_offset as int);
        &&& b.calibration_factor == div_away_from_zero(sum * 100_000, known_weight as int)
        &&& r == if sum > 0 {
            Ok::<(), SensorError>(())
        } else {
            Err(SensorError::CalibrationFailed)
        }
    }
}

/// The outcome of a calibration against `known_weight` milligrams from
/// `samples` on sensor `a`: refused for a known weight of zero or less or
/// when the samples' sum above the zero point is not positive.
pub open spec fn known_weight_result(
    a: SensorModel,
    known_weight: i32,
    samples: Seq<i32>,
) -> Result<(), SensorError> {
    if known_weight > 0 && sum_minus(samples, a.zero_offset as int) > 0 {
        Ok(())
    } else {
        Err(SensorError::CalibrationFailed)
    }
}

/// The logic state of the load cell: calibration, zero point, range and the
/// moving-average filter.
#[derive(Debug)]
pub struct WeightSensorController {
    /// Thousandths of a raw count per gram.
    calibration_factor: i64,
    /// The raw reading of an empty scale.
    zero_offset: i32,
    /// The moving-average filter over converted weights.
    moving_average: MovingAverage,
    /// The heaviest weight accepted, in milligrams.
    max_weight: i32,
}

/// What the load cell's state holds: the calibration factor (thousandths of
/// a raw count per gram), the zero point (raw counts), the maximum weight
/// (milligrams), and the filter's samples (oldest first) and window.
pub struct SensorModel {
    pub calibration_factor: i64,
    pub zero_offset: i32,
    pub max_weight: i32,
    pub filter: Seq<i32>,
    pub window: nat,
}

impl View for WeightSensorController {
    type V = SensorModel;

    closed spec fn view(&self) -> SensorModel {
        SensorModel {
            calibration_factor: self.calibration_factor,
            zero_offset: self.zero_offset,
            max_weight: self.max_weight,
            filter: self.moving_average@,
            window: self.moving_average.window(),
        }
    }
}

/// A read gives up after at most three attempts: the third attempt always
/// finishes, with its own failure when it failed.
pub proof fn lemma_reads_give_up(result: Result<WeightReading, SensorError>)
    ensures
        read_attempt_step((READ_ATTEMPTS - 1) as usize, result) == AttemptStep::Finish(result),
        health_attempt_step((HEALTH_READ_ATTEMPTS - 1) as usize, Err(SensorError::Timeout))
            == AttemptStep::<Result<(), SensorError>>::Finish(Err(SensorError::ReadFailure)),
{
}

/// Decodes the 24 data bits of one HX711 sample (most significant first)
/// into the signed raw value.
pub fn raw_from_data_bits(bits: &[bool]) -> (r: i32)
    requires
        bits@.len() == HX711_BITS,
    ensures
        r as int == raw_from_bits(bits@),
        -0x80_0000 <= r < 0x80_0000,
{
    let mut value: i32 = 0;
    let mut i: usize = 0;
    while i < HX711_BITS
        invariant
            bits@.len() == HX711_BITS,
            i <= HX711_BITS,
            value as int == bits_value(bits@.take(i as int)),
            0 <= value < pow2(i as nat),
        decreases HX711_BITS - i,
    {
        proof {
            assert(bits@.take(i + 1).drop_last() =~= bits@.take(i as int));
            assert(pow2((i + 1) as nat) == 2 * pow2(i as nat));
            assert(pow2(i as nat) <= pow2(23)) by {
                lemma_pow2_mono(i as nat, 23);
            }
            assert(pow2(23) == 0x80_0000) by {
                reveal_with_fuel(pow2, 24);
            }
        }
        value = value * 2;
        if bits[i] {
            value = value + 1;
        }
        i = i + 1;
    }
    assert(bits@.take(HX711_BITS as int) =~= bits@);
    assert(pow2(24) == 0x100_0000) by {
        reveal_with_fuel(pow2, 25);
    }
    let v = value;
    if v & 0x80_0000 != 0 {
        assert((v & 0x80_0000 != 0) ==> (v | (0xFF00_0000u32 as i32)) == v - 0x100_0000 && v
            >= 0x80_0000) by (bit_vector)
            requires
                0 <= v < 0x100_0000,
        ;
        v | (0xFF00_0000u32 as i32)
    } else {
        assert((v & 0x80_0000 == 0) ==> v < 0x80_0000) by (bit_vector)
            requires
                0 <= v < 0x100_0000,
        ;
        v
    }
}

/// The products formed while converting a count fit in 128 bits.
proof fn lemma_counts_times_factor(c: int, f: int, max: int)
    requires
        -0x1_0000_0000 <= c <= 0x1_0000_0000,
        i64::MIN <= f <= i64::MAX,
        i32::MIN <= max <= i32::MAX,
    ensures
        -0x1_0000_0000_0000_0000_0000_0000 <= c * f <= 0x1_0000_0000_0000_0000_0000_0000,
        -0x1_0000_0000_0000_0000_0000_0000 <= max * f <= 0x1_0000_0000_0000_0000_0000_0000,
        -0x1_0000_0000_0000_0000 <= c * 1_000_000 <= 0x1_0000_0000_0000_0000,
{
    assert(-0x1_0000_0000_0000_0000_0000_0000 <= c * f <= 0x1_0000_0000_0000_0000_0000_0000)
        by (nonlinear_arith)
        requires
            -0x1_0000_0000 <= c <= 0x1_0000_0000,
            -0x8000_0000_0000_0000 <= f <= 0x8000_0000_0000_0000,
    ;
    assert(-0x1_0000_0000_0000_0000_0000_0000 <= max * f <= 0x1_0000_0000_0000_0000_0000_0000)
        by (nonlinear_arith)
        requires
            -0x8000_0000 <= max <= 0x8000_0000,
            -0x8000_0000_0000_0000 <= f <= 0x8000_0000_0000_0000,
    ;
}

/// An exact weight within `[0, max]` stays within it when rounded toward
/// zero.
proof fn lemma_in_range_quotient(c: int, f: int, max: int)
    requires
        f != 0,
        !weight_out_of_range(c, f, max),
    ensures
        0 <= counts_to_mg(c, f) <= max,
{
    let scaled = c * 1_000_000;
    if f > 0 {
        assert(c >= 0) by (nonlinear_arith)
            requires
                c * f >= 0,
                f > 0,
        ;
        assert(max >= 0) by (nonlinear_arith)
            requires
                0 <= scaled <= max * f,
                f > 0,
        ;
        vstd::arithmetic::div_mod::lemma_div_is_ordered(scaled, max * f, f);
        vstd::arithmetic::div_mod::lemma_div_by_multiple(max, f);
        vstd::arithmetic::div_mod::lemma_div_pos_is_pos(scaled, f);
        assert(counts_to_mg(c, f) == scaled / f);
    } else {
        assert(c <= 0) by (nonlinear_arith)
            requires
                c * f >= 0,
                f < 0,
        ;
        assert(-scaled <= max * (-f)) by (nonlinear_arith)
            requires
                scaled >= max * f,
        ;
        assert(max >= 0) by (nonlinear_arith)
            requires
                0 <= -scaled <= max * (-f),
                f < 0,
        ;
        vstd::arithmetic::div_mod::lemma_div_is_ordered(-scaled, max * (-f), -f);
        vstd::arithmetic::div_mod::lemma_div_by_multiple(max, -f);
        vstd::arithmetic::div_mod::lemma_div_pos_is_pos(-scaled, -f);
        assert(counts_to_mg(c, f) == (-scaled) / (-f));
    }
}

/// Rounding away from zero keeps the sign: the result is positive, zero or
/// negative as `a` is, and no larger in size than `|a|`.
proof fn lemma_div_away_sign(a: int, b: int)
    requires
        b > 0,
    ensures
        div_away_from_zero(a, b) > 0 <==> a > 0,
        div_away_from_zero(a, b) == 0 <==> a == 0,
        -a <= div_away_from_zero(a, b) <= a || a <= div_away_from_zero(a, b) <= -a,
{
    if a > 0 {
        vstd::arithmetic::div_mod::lemma_div_non_zero(a + b - 1, b);
        assert(a + b - 1 <= a * b) by (nonlinear_arith)
            requires
                a >= 1,
                b >= 1,
        ;
        vstd::arithmetic::div_mod::lemma_div_is_ordered(a + b - 1, a * b, b);
        vstd::arithmetic::div_mod::lemma_div_by_multiple(a, b);
    } else if a == 0 {
        vstd::arithmetic::div_mod::lemma_basic_div(b - 1, b);
    } else {
        vstd::arithmetic::div_mod::lemma_div_non_zero(-a + b - 1, b);
        assert(-a + b - 1 <= (-a) * b) by (nonlinear_arith)
            requires
                -a >= 1,
                b >= 1,
        ;
        vstd::arithmetic::div_mod::lemma_div_is_ordered(-a + b - 1, (-a) * b, b);
        vstd::arithmetic::div_mod::lemma_div_by_multiple(-a, b);
    }
}

proof fn lemma_pow2_mono(a: nat, b: nat)
    requires
        a <= b,
    ensures
        1 <= pow2(a) <= pow2(b),
    decreases b,
{
    if a < b {
        lemma_pow2_mono(a, (b - 1) as nat);
        assert(pow2(b) == 2 * pow2((b - 1) as nat));
    } else {
        lemma_pow2_pos(a);
    }
}

proof fn lemma_pow2_pos(a: nat)
    ensures
        1 <= pow2(a),
    decreases a,
{
    if a > 0 {
        lemma_pow2_pos((a - 1) as nat);
    }
}

/// `|n·x| ≤ 2^64·2^31` for a count `n` and a 32-bit `x`.
proof fn lemma_count_times_i32(n: int, x: int)
    requires
        0 <= n <= 0xffff_ffff_ffff_ffff,
        i32::MIN <= x <= i32::MAX,
    ensures
        -0x1_0000_0000_0000_0000 * 0x8000_0000 <= n * x <= 0x1_0000_0000_0000_0000 * 0x8000_0000,
{
    if x >= 0 {
        assert(0 <= n * x <= n * 0x8000_0000) by (nonlinear_arith)
            requires
                0 <= n,
                0 <= x <= 0x8000_0000,
        ;
    } else {
        assert(-(n * 0x8000_0000) <= n * x <= 0) by (nonlinear_arith)
            requires
                0 <= n,
                -0x8000_0000 <= x < 0,
        ;
    }
}

impl WeightSensorController {
    /// A sensor with the given calibration factor and filter window, zero
    /// point 0 and a 100 g maximum.
    pub fn new(calibration_factor: i64, window_size: usize) -> (r: Self)
        ensures
            r@.calibration_factor == calibration_factor,
            r@.zero_offset == 0,
            r@.max_weight == DEFAULT_MAX_WEIGHT,
            r@.filter == Seq::<i32>::empty(),
            r@.window == clamp_window(window_size as nat),
    {
        WeightSensorController {
            calibration_factor,
            zero_offset: 0,
            moving_average: MovingAverage::new(window_size),
            max_weight: DEFAULT_MAX_WEIGHT,
        }
    }

    /// Converts one raw sample taken at `timestamp` into a filtered
    /// reading, as `read_outcome` states.
    pub fn try_read_weight(&mut self, raw: i32, timestamp: u64) -> (r: Result<
        WeightReading,
        SensorError,
    >)
        ensures
            read_outcome(old(self)@, raw, timestamp, final(self)@, r),
    {
        let counts: i64 = raw as i64 - self.zero_offset as i64;
        let f = self.calibration_factor;
        let max = self.max_weight;
        if f == 0 {
            if counts == 0 {
                return Err(SensorError::InvalidReading(0));
            } else if counts > 0 {
                return Err(SensorError::OutOfRange { value: i64::MAX, max: max as i64 });
            } else {
                return Err(SensorError::OutOfRange { value: i64::MIN, max: max as i64 });
            }
        }
        let c = counts as i128;
        let fi = f as i128;
        proof {
            lemma_counts_times_factor(c as int, fi as int, max as int);
        }
        let scaled: i128 = c * 1_000_000;
        let limit: i128 = (max as i128) * fi;
        let out_of_range = c * fi < 0 || (fi > 0 && scaled > limit) || (fi < 0 && scaled < limit);
        let num: i128 = if scaled >= 0 {
            scaled
        } else {
            -scaled
        };
        let den: i128 = if fi > 0 {
            fi
        } else {
            -fi
        };
        let mag: i128 = num / den;
        proof {
            assert(0 <= mag <= num) by (nonlinear_arith)
                requires
                    mag == num / den,
                    0 <= num,
                    den >= 1,
            ;
        }
        let w: i128 = if (scaled >= 0) == (fi > 0) {
            mag
        } else {
            -mag
        };
        proof {
            assert(w == counts_to_mg(counts as int, f as int));
        }
        if out_of_range {
            return Err(SensorError::OutOfRange { value: w as i64, max: max as i64 });
        }
        proof {
            lemma_in_range_quotient(counts as int, f as int, max as int);
        }
        let weight = w as i32;
        let filtered = self.moving_average.add(weight);
        let is_stable = self.moving_average.is_stable(STABILITY_VARIANCE);
        Ok(WeightReading::new(filtered, is_stable, timestamp))
    }

    /// Sets the zero point to the mean (rounded toward zero) of raw samples
    /// taken from the empty scale, after clearing the filter.
    pub fn calibrate_zero(&mut self, samples: &[i32])
        requires
            samples@.len() == CALIBRATION_SAMPLES,
        ensures
            zero_calibration(old(self)@, samples@, final(self)@),
    {
        self.moving_average.reset();
        let sum = sum_samples(samples, 0);
        proof {
            lemma_sum_minus_bounds(samples@, 0);
        }
        let avg = sum / (CALIBRATION_SAMPLES as i64);
        proof {
            let n = CALIBRATION_SAMPLES as int;
            let sum = sum as int;
            if sum >= 0 {
                assert(sum / n <= i32::MAX) by (nonlinear_arith)
                    requires
                        0 <= sum <= n * (i32::MAX as int),
                        n == 10,
                ;
            } else {
                assert((-sum) / n <= -(i32::MIN as int)) by (nonlinear_arith)
                    requires
                        0 < -sum <= n * (-(i32::MIN as int)),
                        n == 10,
                ;
            }
        }
        self.zero_offset = avg as i32;
    }

    /// Calibrates against a known weight (in milligrams) from raw samples
    /// taken with it on the scale: the factor becomes the samples' mean
    /// above the zero point per gram, in thousandths of a count rounded away
    /// from zero, so that it has the sign of that mean and is zero only when
    /// the mean is.  A known weight of zero or less is refused and changes
    /// nothing; otherwise the factor is stored, and the calibration succeeds
    /// exactly when the mean above the zero point is positive.
    pub fn calibrate_with_known_weight(&mut self, known_weight: i32, samples: &[i32]) -> (r: Result<
        (),
        SensorError,
    >)
        requires
            known_weight > 0 ==> samples@.len() == CALIBRATION_SAMPLES,
        ensures
            known_weight_calibration(old(self)@, known_weight, samples@, final(self)@, r),
    {
        if known_weight <= 0 {
            return Err(SensorError::CalibrationFailed);
        }
        let sum = sum_samples(samples, self.zero_offset);
        proof {
            lemma_sum_minus_bounds(samples@, self.zero_offset as int);
            assert(sum * 100_000 <= 10 * 0x1_0000_0000 * 100_000);
        }
        let scaled = sum * 100_000;
        let k = known_weight as i64;
        let factor = if scaled >= 0 {
            (scaled + k - 1) / k
        } else {
            -((-scaled + k - 1) / k)
        };
        proof {
            lemma_div_away_sign(scaled as int, k as int);
        }
        self.calibration_factor = factor;
        if factor <= 0 {
            return Err(SensorError::CalibrationFailed);
        }
        Ok(())
    }

    /// The calibration factor, in thousandths of a raw count per gram.
    pub fn calibration_factor(&self) -> (r: i64)
        ensures
            r == self@.calibration_factor,
    {
        self.calibration_factor
    }

    /// The zero point, in raw counts.
    pub fn zero_offset(&self) -> (r: i32)
        ensures
            r == self@.zero_offset,
    {
        self.zero_offset
    }

    /// The heaviest weight accepted, in milligrams.
    pub fn max_weight(&self) -> (r: i32)
        ensures
            r == self@.max_weight,
    {
        self.max_weight
    }

    /// Whether a weight (in milligrams) is within the scale's range.
    pub fn is_in_range(&self, weight: i32) -> (r: bool)
        ensures
            r == (0 <= weight <= self@.max_weight),
    {
        weight >= 0 && weight <= self.max_weight
    }

    /// Sets the calibration factor.
    pub fn set_calibration_factor(&mut self, factor: i64)
        ensures
            final(self)@ == (SensorModel { calibration_factor: factor, ..old(self)@ }),
    {
        self.calibration_factor = factor;
    }

    /// Sets the maximum weight, in milligrams.
    pub fn set_max_weight(&mut self, max_weight: i32)
        ensures
            final(self)@ == (SensorModel { max_weight, ..old(self)@ }),
    {
        self.max_weight = max_weight;
    }

    /// Replaces the filter by an empty one over `window_size` samples.
    pub fn set_moving_average_window(&mut self, window_size: usize)
        ensures
            final(self)@.filter == Seq::<i32>::empty(),
            final(self)@.window == clamp_window(window_size as nat),
            final(self)@.calibration_factor == old(self)@.calibration_factor,
            final(self)@.zero_offset == old(self)@.zero_offset,
            final(self)@.max_weight == old(self)@.max_weight,
    {
        self.moving_average = MovingAverage::new(window_size);
    }

    /// The filter's current mean, if it holds samples.
    pub fn get_current_average(&self) -> (r: Option<i32>)
        ensures
            r == if self@.filter.len() == 0 {
                None::<i32>
            } else {
                Some(mean(self@.filter) as i32)
            },
    {
        self.moving_average.average()
    }

    /// Empties the filter.
    pub fn reset_filter(&mut self)
        ensures
            final(self)@.filter == Seq::<i32>::empty(),
            final(self)@.window == old(self)@.window,
            final(self)@.calibration_factor == old(self)@.calibration_factor,
            final(self)@.zero_offset == old(self)@.zero_offset,
            final(self)@.max_weight == old(self)@.max_weight,
    {
        self.moving_average.reset();
    }

    /// Whether a series of readings (in milligrams) is stable: at least five
    /// readings, each within `tolerance` of their mean.
    pub fn check_weight_stability(&self, readings: &[i32], tolerance: i32) -> (r: bool)
        ensures
            r == readings_stable(readings@, tolerance as int),
    {
        check_stability(readings, tolerance)
    }

    /// The outcome of a stabilisation run from the readings it gathered: no
    /// reading is a read failure; stable readings give their mean (rounded
    /// toward zero); unstable ones a failed calibration.
    pub fn stabilize_weight(&self, readings: &[i32], tolerance: i32) -> (r: Result<
        i32,
        SensorError,
    >)
        ensures
            readings@.len() == 0 ==> r == Err::<i32, SensorError>(SensorError::ReadFailure),
            readings@.len() > 0 && readings_stable(readings@, tolerance as int) ==> r == Ok::<
                i32,
                SensorError,
            >(mean(readings@) as i32),
            readings@.len() > 0 && !readings_stable(readings@, tolerance as int) ==> r == Err::<
                i32,
                SensorError,
            >(SensorError::CalibrationFailed),
            readings@.len() > 0 ==> i32::MIN <= mean(readings@) <= i32::MAX,
    {
        if readings.len() == 0 {
            return Err(SensorError::ReadFailure);
        }
        proof {
            crate::models::moving_average::lemma_mean_in_range(readings@);
        }
        if check_stability(readings, tolerance) {
            let total = slice_sum(readings);
            Ok((total / (readings.len() as i128)) as i32)
        } else {
            Err(SensorError::CalibrationFailed)
        }
    }

    /// Whether a reading shows the target reached: it is stable and its
    /// weight above `base_weight` is at least `target_weight` (milligrams).
    pub fn monitor_weight_for_target(reading: &WeightReading, target_weight: i32, base_weight: i32) -> (r:
        bool)
        ensures
            r == (reading.is_stable && reading.value - base_weight >= target_weight),
    {
        reading.is_stable && (reading.value as i64) - (base_weight as i64) >= target_weight as i64
    }
}

proof fn lemma_sum_minus_bounds(s: Seq<i32>, offset: int)
    requires
        i32::MIN <= offset <= i32::MAX,
    ensures
        s.len() * (i32::MIN - i32::MAX) <= sum_minus(s, offset) <= s.len() * (i32::MAX - i32::MIN),
        offset == 0 ==> s.len() * (i32::MIN as int) <= sum_minus(s, offset) <= s.len() * (
        i32::MAX as int),
    decreases s.len(),
{
    if s.len() > 0 {
        lemma_sum_minus_bounds(s.drop_last(), offset);
    }
}

/// The sum of the samples, each less `offset`.
fn sum_samples(samples: &[i32], offset: i32) -> (r: i64)
    requires
        samples@.len() == CALIBRATION_SAMPLES,
    ensures
        r as int == sum_minus(samples@, offset as int),
{
    let mut sum: i64 = 0;
    let mut i: usize = 0;
    while i < samples.len()
        invariant
            samples@.len() == CALIBRATION_SAMPLES,
            i <= samples@.len(),
            sum as int == sum_minus(samples@.take(i as int), offset as int),
        decreases samples@.len() - i,
    {
        proof {
            assert(samples@.take(i + 1).drop_last() =~= samples@.take(i as int));
            lemma_sum_minus_bounds(samples@.take(i as int), offset as int);
        }
        sum = sum + (samples[i] as i64 - offset as i64);
        i = i + 1;
    }
    assert(samples@.take(samples@.len() as int) =~= samples@);
    sum
}

/// The exact sum of a slice of readings.
fn slice_sum(s: &[i32]) -> (r: i128)
    ensures
        r as int == crate::models::moving_average::seq_sum(s@),
        s@.len() * (i32::MIN as int) <= r <= s@.len() * (i32::MAX as int),
{
    let mut total: i128 = 0;
    let mut i: usize = 0;
    while i < s.len()
        invariant
            i <= s@.len(),
            total as int == crate::models::moving_average::seq_sum(s@.take(i as int)),
            i * (i32::MIN as int) <= total <= i * (i32::MAX as int),
        decreases s@.len() - i,
    {
        proof {
            assert(s@.take(i + 1).drop_last() =~= s@.take(i as int));
        }
        total = total + s[i] as i128;
        i = i + 1;
    }
    assert(s@.take(s@.len() as int) =~= s@);
    total
}

/// Whether at least five readings all lie within `tolerance` of their mean.
fn check_stability(readings: &[i32], tolerance: i32) -> (r: bool)
    ensures
        r == readings_stable(readings@, tolerance as int),
{
    if readings.len() < MIN_STABILITY_READINGS {
        return false;
    }
    let total = slice_sum(readings);
    let n = readings.len() as i128;
    let mut i: usize = 0;
    while i < readings.len()
        invariant
            n == readings@.len(),
            total == crate::models::moving_average::seq_sum(readings@),
            n * (i32::MIN as int) <= total <= n * (i32::MAX as int),
            i <= readings@.len(),
            forall|j: int|
                0 <= j < i ==> #[trigger] abs_int(n * readings@[j] - total) <= n * tolerance,
        decreases readings@.len() - i,
    {
        let x = readings[i] as i128;
        proof {
            lemma_count_times_i32(n as int, x as int);
            lemma_count_times_i32(n as int, tolerance as int);
            lemma_count_times_i32(n as int, i32::MIN as int);
            lemma_count_times_i32(n as int, i32::MAX as int);
        }
        let d = n * x - total;
        let ad = if d < 0 {
            -d
        } else {
            d
        };
        if ad > n * (tolerance as i128) {
            assert(abs_int(n * readings@[i as int] - total) > n * tolerance);
            return false;
        }
        i = i + 1;
    }
    true
}

/// A series counts as stable exactly when it has at least five readings and
/// every one of them, the first and the last included, lies within
/// `tolerance` of the series' mean: `|n·r − Σ| ≤ n·tolerance` for each
/// reading `r` of the `n`.
pub proof fn lemma_stable_means_every_reading_close(s: Seq<i32>, tolerance: int)
    ensures
        readings_stable(s, tolerance) <==> (s.len() >= 5 && forall|i: int|
            0 <= i < s.len() ==> -(s.len() * tolerance) <= #[trigger] (s.len() * s[i])
                - crate::models::moving_average::seq_sum(s) <= s.len() * tolerance),
{
    let n = s.len() as int;
    let total = crate::models::moving_average::seq_sum(s);
    if readings_stable(s, tolerance) {
        assert forall|i: int| 0 <= i < n implies -(n * tolerance) <= #[trigger] (n * s[i]) - total
            <= n * tolerance by {
            assert(abs_int(n * s[i] - total) <= n * tolerance);
        }
    }
    if s.len() >= 5 && forall|i: int|
        0 <= i < s.len() ==> -(s.len() * tolerance) <= #[trigger] (s.len() * s[i])
            - total <= s.len() * tolerance {
        assert forall|i: int| 0 <= i < n implies #[trigger] abs_int(n * s[i] - total) <= n
            * tolerance by {
            assert(-(n * tolerance) <= n * s[i] - total <= n * tolerance);
        }
    }
}

} // verus!
