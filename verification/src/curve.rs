//! The gain curve: the mapping from a normalized control position to a linear
//! amplitude, and the conversion from a decibel level to an amplitude.
//!
//! Amplitudes are linear gains in nano units (`1_000_000_000` is unity, that
//! is 0 dB). Decibel levels are centi-decibels (`-600` is -6.00 dB). Control
//! positions are per-million fractions (`500_000` is the knob midpoint).
//!
//! The curve spans -144 dB to +12 dB and is skewed so that the midpoint of
//! the knob sits at -6 dB, the middle of the -24 dB..+12 dB span, giving
//! finer control near unity gain than near the floor. It is realized as
//! piecewise-linear interpolation between one hundred and one precomputed
//! knots of the skewed logarithmic curve, which keeps every step exact
//! integer arithmetic.

use vstd::prelude::*;

verus! {

/// The smallest amplitude of the curve, the -144 dB floor, in nano units.
pub const MIN_AMP_NANO: u64 = 63;

/// The largest amplitude of the curve, the +12 dB ceiling, in nano units.
pub const MAX_AMP_NANO: u64 = 3_981_071_303;

/// The amplitude at the knob midpoint, the -6 dB anchor, in nano units.
pub const ANCHOR_AMP_NANO: u64 = 501_187_269;

/// The decibel floor of the curve, in centi-decibels.
pub const MIN_CDB: i32 = -14_400;

/// The decibel ceiling of the curve, in centi-decibels.
pub const MAX_CDB: i32 = 1_200;

/// A normalized control position is a fraction of this unit.
pub const POS_UNIT: u32 = 1_000_000;

/// The width of one interpolation segment, in position units.
pub const POS_STEP: u32 = 10_000;

/// The amplitude, in nano units, at interpolation knot `i` of the skewed
/// gain curve (the knots sit at positions `i * POS_STEP`).
pub open spec fn amp_knot(i: int) -> u64 {
    if i <= 0 { 63u64 } else
    if i <= 1 { 4237u64 } else
    if i <= 2 { 33217u64 } else
    if i <= 3 { 111491u64 } else
    if i <= 4 { 263411u64 } else
    if i <= 5 { 513237u64 } else
    if i <= 6 { 885169u64 } else
    if i <= 7 { 1403357u64 } else
    if i <= 8 { 2091907u64 } else
    if i <= 9 { 2974890u64 } else
    if i <= 10 { 4076348u64 } else
    if i <= 11 { 5420293u64 } else
    if i <= 12 { 7030714u64 } else
    if i <= 13 { 8931576u64 } else
    if i <= 14 { 11146825u64 } else
    if i <= 15 { 13700387u64 } else
    if i <= 16 { 16616171u64 } else
    if i <= 17 { 19918069u64 } else
    if i <= 18 { 23629959u64 } else
    if i <= 19 { 27775703u64 } else
    if i <= 20 { 32379150u64 } else
    if i <= 21 { 37464136u64 } else
    if i <= 22 { 43054486u64 } else
    if i <= 23 { 49174012u64 } else
    if i <= 24 { 55846513u64 } else
    if i <= 25 { 63095783u64 } else
    if i <= 26 { 70945599u64 } else
    if i <= 27 { 79419734u64 } else
    if i <= 28 { 88541948u64 } else
    if i <= 29 { 98335994u64 } else
    if i <= 30 { 108825614u64 } else
    if i <= 31 { 120034545u64 } else
    if i <= 32 { 131986512u64 } else
    if i <= 33 { 144705235u64 } else
    if i <= 34 { 158214425u64 } else
    if i <= 35 { 172537787u64 } else
    if i <= 36 { 187699017u64 } else
    if i <= 37 { 203721806u64 } else
    if i <= 38 { 220629836u64 } else
    if i <= 39 { 238446784u64 } else
    if i <= 40 { 257196320u64 } else
    if i <= 41 { 276902109u64 } else
    if i <= 42 { 297587808u64 } else
    if i <= 43 { 319277070u64 } else
    if i <= 44 { 341993540u64 } else
    if i <= 45 { 365760859u64 } else
    if i <= 46 { 390602663u64 } else
    if i <= 47 { 416542580u64 } else
    if i <= 48 { 443604236u64 } else
    if i <= 49 { 471811249u64 } else
    if i <= 50 { 501187269u64 } else
    if i <= 51 { 531755800u64 } else
    if i <= 52 { 563540551u64 } else
    if i <= 53 { 596565087u64 } else
    if i <= 54 { 630853004u64 } else
    if i <= 55 { 666427891u64 } else
    if i <= 56 { 703313334u64 } else
    if i <= 57 { 741532915u64 } else
    if i <= 58 { 781110212u64 } else
    if i <= 59 { 822068796u64 } else
    if i <= 60 { 864432238u64 } else
    if i <= 61 { 908224101u64 } else
    if i <= 62 { 953467946u64 } else
    if i <= 63 { 1000187331u64 } else
    if i <= 64 { 1048405807u64 } else
    if i <= 65 { 1098146924u64 } else
    if i <= 66 { 1149434227u64 } else
    if i <= 67 { 1202291257u64 } else
    if i <= 68 { 1256741552u64 } else
    if i <= 69 { 1312808647u64 } else
    if i <= 70 { 1370516072u64 } else
    if i <= 71 { 1429887355u64 } else
    if i <= 72 { 1490946018u64 } else
    if i <= 73 { 1553715582u64 } else
    if i <= 74 { 1618219565u64 } else
    if i <= 75 { 1684481479u64 } else
    if i <= 76 { 1752524835u64 } else
    if i <= 77 { 1822373141u64 } else
    if i <= 78 { 1894049900u64 } else
    if i <= 79 { 1967578613u64 } else
    if i <= 80 { 2042982779u64 } else
    if i <= 81 { 2120285890u64 } else
    if i <= 82 { 2199511441u64 } else
    if i <= 83 { 2280682918u64 } else
    if i <= 84 { 2363823808u64 } else
    if i <= 85 { 2448957593u64 } else
    if i <= 86 { 2536107754u64 } else
    if i <= 87 { 2625297769u64 } else
    if i <= 88 { 2716551110u64 } else
    if i <= 89 { 2809891250u64 } else
    if i <= 90 { 2905341658u64 } else
    if i <= 91 { 3002925799u64 } else
    if i <= 92 { 3102667138u64 } else
    if i <= 93 { 3204589135u64 } else
    if i <= 94 { 3308715248u64 } else
    if i <= 95 { 3415068933u64 } else
    if i <= 96 { 3523673643u64 } else
    if i <= 97 { 3634552828u64 } else
    if i <= 98 { 3747729937u64 } else
    if i <= 99 { 3863228415u64 } else
    { 3981071303u64 }
}

/// The amplitude knot table, evaluated at runtime.
pub fn amp_knot_at(i: usize) -> (r: u64)
    ensures
        r == amp_knot(i as int),
{
    if i <= 0 { 63u64 } else
    if i <= 1 { 4237u64 } else
    if i <= 2 { 33217u64 } else
    if i <= 3 { 111491u64 } else
    if i <= 4 { 263411u64 } else
    if i <= 5 { 513237u64 } else
    if i <= 6 { 885169u64 } else
    if i <= 7 { 1403357u64 } else
    if i <= 8 { 2091907u64 } else
    if i <= 9 { 2974890u64 } else
    if i <= 10 { 4076348u64 } else
    if i <= 11 { 5420293u64 } else
    if i <= 12 { 7030714u64 } else
    if i <= 13 { 8931576u64 } else
    if i <= 14 { 11146825u64 } else
    if i <= 15 { 13700387u64 } else
    if i <= 16 { 16616171u64 } else
    if i <= 17 { 19918069u64 } else
    if i <= 18 { 23629959u64 } else
    if i <= 19 { 27775703u64 } else
    if i <= 20 { 32379150u64 } else
    if i <= 21 { 37464136u64 } else
    if i <= 22 { 43054486u64 } else
    if i <= 23 { 49174012u64 } else
    if i <= 24 { 55846513u64 } else
    if i <= 25 { 63095783u64 } else
    if i <= 26 { 70945599u64 } else
    if i <= 27 { 79419734u64 } else
    if i <= 28 { 88541948u64 } else
    if i <= 29 { 98335994u64 } else
    if i <= 30 { 108825614u64 } else
    if i <= 31 { 120034545u64 } else
    if i <= 32 { 131986512u64 } else
    if i <= 33 { 144705235u64 } else
    if i <= 34 { 158214425u64 } else
    if i <= 35 { 172537787u64 } else
    if i <= 36 { 187699017u64 } else
    if i <= 37 { 203721806u64 } else
    if i <= 38 { 220629836u64 } else
    if i <= 39 { 238446784u64 } else
    if i <= 40 { 257196320u64 } else
    if i <= 41 { 276902109u64 } else
    if i <= 42 { 297587808u64 } else
    if i <= 43 { 319277070u64 } else
    if i <= 44 { 341993540u64 } else
    if i <= 45 { 365760859u64 } else
    if i <= 46 { 390602663u64 } else
    if i <= 47 { 416542580u64 } else
    if i <= 48 { 443604236u64 } else
    if i <= 49 { 471811249u64 } else
    if i <= 50 { 501187269u64 } else
    if i <= 51 { 531755800u64 } else
    if i <= 52 { 563540551u64 } else
    if i <= 53 { 596565087u64 } else
    if i <= 54 { 630853004u64 } else
    if i <= 55 { 666427891u64 } else
    if i <= 56 { 703313334u64 } else
    if i <= 57 { 741532915u64 } else
    if i <= 58 { 781110212u64 } else
    if i <= 59 { 822068796u64 } else
    if i <= 60 { 864432238u64 } else
    if i <= 61 { 908224101u64 } else
    if i <= 62 { 953467946u64 } else
    if i <= 63 { 1000187331u64 } else
    if i <= 64 { 1048405807u64 } else
    if i <= 65 { 1098146924u64 } else
    if i <= 66 { 1149434227u64 } else
    if i <= 67 { 1202291257u64 } else
    if i <= 68 { 1256741552u64 } else
    if i <= 69 { 1312808647u64 } else
    if i <= 70 { 1370516072u64 } else
    if i <= 71 { 1429887355u64 } else
    if i <= 72 { 1490946018u64 } else
    if i <= 73 { 1553715582u64 } else
    if i <= 74 { 1618219565u64 } else
    if i <= 75 { 1684481479u64 } else
    if i <= 76 { 1752524835u64 } else
    if i <= 77 { 1822373141u64 } else
    if i <= 78 { 1894049900u64 } else
    if i <= 79 { 1967578613u64 } else
    if i <= 80 { 2042982779u64 } else
    if i <= 81 { 2120285890u64 } else
    if i <= 82 { 2199511441u64 } else
    if i <= 83 { 2280682918u64 } else
    if i <= 84 { 2363823808u64 } else
    if i <= 85 { 2448957593u64 } else
    if i <= 86 { 2536107754u64 } else
    if i <= 87 { 2625297769u64 } else
    if i <= 88 { 2716551110u64 } else
    if i <= 89 { 2809891250u64 } else
    if i <= 90 { 2905341658u64 } else
    if i <= 91 { 3002925799u64 } else
    if i <= 92 { 3102667138u64 } else
    if i <= 93 { 3204589135u64 } else
    if i <= 94 { 3308715248u64 } else
    if i <= 95 { 3415068933u64 } else
    if i <= 96 { 3523673643u64 } else
    if i <= 97 { 3634552828u64 } else
    if i <= 98 { 3747729937u64 } else
    if i <= 99 { 3863228415u64 } else
    { 3981071303u64 }
}


/// Knots that stand earlier in the amplitude table never exceed later ones.
pub proof fn lemma_amp_knot_mono(i: int, j: int)
    requires
        0 <= i <= j <= 100,
    ensures
        amp_knot(i) <= amp_knot(j),
    decreases j - i,
{
    if i < j {
        lemma_amp_knot_mono(i, j - 1);
        assert(amp_knot(j - 1) <= amp_knot(j));
    }
}


/// The amplitude, in nano units, at normalized control position `n` (a
/// per-million fraction of the knob travel): linear interpolation between the
/// two neighbouring knots of the skewed curve.
pub open spec fn amp_for_spec(n: int) -> int {
    let i = n / (POS_STEP as int);
    let f = n % (POS_STEP as int);
    if i >= 100 {
        MAX_AMP_NANO as int
    } else {
        amp_knot(i) + (amp_knot(i + 1) - amp_knot(i)) * f / (POS_STEP as int)
    }
}


/// Interpolating between two ordered values stays between them.
proof fn lemma_interp_bounds(a0: int, a1: int, f: int, s: int)
    requires
        a0 <= a1,
        0 <= f < s,
    ensures
        a0 <= a0 + (a1 - a0) * f / s <= a1,
{
    let d = a1 - a0;
    assert(0 <= d * f) by (nonlinear_arith)
        requires 0 <= d && 0 <= f;
    vstd::arithmetic::div_mod::lemma_div_pos_is_pos(d * f, s);
    assert(d * f <= d * s) by (nonlinear_arith)
        requires 0 <= d && 0 <= f <= s;
    vstd::arithmetic::div_mod::lemma_div_is_ordered(d * f, d * s, s);
    vstd::arithmetic::div_mod::lemma_div_multiples_vanish(d, s);
}

/// Positions `0` to `POS_UNIT` split into a segment index below one hundred
/// and an offset below the segment width.
proof fn lemma_pos_split(n: int)
    requires
        0 <= n <= POS_UNIT,
    ensures
        0 <= n / (POS_STEP as int) <= 100,
        n / (POS_STEP as int) == 100 ==> n % (POS_STEP as int) == 0,
        0 <= n % (POS_STEP as int) < POS_STEP,
{
    let s = POS_STEP as int;
    vstd::arithmetic::div_mod::lemma_div_pos_is_pos(n, s);
    vstd::arithmetic::div_mod::lemma_div_is_ordered(n, POS_UNIT as int, s);
    vstd::arithmetic::div_mod::lemma_remainder_lower(n, s);
    vstd::arithmetic::div_mod::lemma_remainder_upper(n, s);
    vstd::arithmetic::div_mod::lemma_fundamental_div_mod(n, s);
    if n / s == 100 {
        assert(n % s == n - 100 * s);
    }
}

/// A position's amplitude lies between the amplitudes of its segment's knots.
proof fn lemma_amp_seg_bounds(n: int)
    requires
        0 <= n <= POS_UNIT,
    ensures
        amp_knot(n / (POS_STEP as int)) <= amp_for_spec(n),
        amp_for_spec(n) <= MAX_AMP_NANO,
        n / (POS_STEP as int) < 100 ==> amp_for_spec(n) <= amp_knot(n / (POS_STEP as int) + 1),
{
    let s = POS_STEP as int;
    let i = n / s;
    let f = n % s;
    lemma_pos_split(n);
    if i < 100 {
        lemma_amp_knot_mono(i, i + 1);
        lemma_interp_bounds(amp_knot(i) as int, amp_knot(i + 1) as int, f, s);
        lemma_amp_knot_mono(i + 1, 100);
    }
}

/// The amplitude of the gain curve never decreases as the control position
/// grows: the knob can only make the send louder, never quieter, when turned
/// up.
pub proof fn lemma_amplitude_monotone(n1: int, n2: int)
    requires
        0 <= n1 <= n2 <= POS_UNIT,
    ensures
        amp_for_spec(n1) <= amp_for_spec(n2),
{
    let s = POS_STEP as int;
    let i1 = n1 / s;
    let i2 = n2 / s;
    lemma_pos_split(n1);
    lemma_pos_split(n2);
    lemma_amp_seg_bounds(n1);
    lemma_amp_seg_bounds(n2);
    vstd::arithmetic::div_mod::lemma_div_is_ordered(n1, n2, s);
    if i1 == i2 {
        if i1 < 100 {
            let d = (amp_knot(i1 + 1) - amp_knot(i1)) as int;
            let f1 = n1 % s;
            let f2 = n2 % s;
            lemma_amp_knot_mono(i1, i1 + 1);
            vstd::arithmetic::div_mod::lemma_fundamental_div_mod(n1, s);
            vstd::arithmetic::div_mod::lemma_fundamental_div_mod(n2, s);
            assert(f1 <= f2);
            assert(d * f1 <= d * f2) by (nonlinear_arith)
                requires 0 <= d && 0 <= f1 <= f2;
            vstd::arithmetic::div_mod::lemma_div_is_ordered(d * f1, d * f2, s);
        }
    } else {
        lemma_amp_knot_mono(i1 + 1, i2);
    }
}

/// The curve's endpoints and midpoint are exact: position zero gives the
/// -144 dB floor, full travel gives the +12 dB ceiling, and the knob midpoint
/// gives the -6 dB anchor, the middle of the -24 dB..+12 dB span.
pub proof fn lemma_amplitude_landmarks()
    ensures
        amp_for_spec(0) == MIN_AMP_NANO,
        amp_for_spec(POS_UNIT as int) == MAX_AMP_NANO,
        amp_for_spec((POS_UNIT / 2) as int) == ANCHOR_AMP_NANO,
{
    let s = POS_STEP as int;
    vstd::arithmetic::div_mod::lemma_div_of0(s);
    vstd::arithmetic::div_mod::lemma_mod_multiples_basic(0, s);
    assert(0int == 0 * s);
    vstd::arithmetic::div_mod::lemma_div_multiples_vanish(50, s);
    vstd::arithmetic::div_mod::lemma_mod_multiples_basic(50, s);
    vstd::arithmetic::div_mod::lemma_div_multiples_vanish(100, s);
    vstd::arithmetic::div_mod::lemma_mod_multiples_basic(100, s);
    assert((POS_UNIT / 2) as int == 50 * s);
    assert(POS_UNIT as int == 100 * s);
    assert(amp_for_spec(0) == amp_knot(0) + (amp_knot(1) - amp_knot(0)) * 0 / s);
    assert(amp_for_spec(50 * s) == amp_knot(50) + (amp_knot(51) - amp_knot(50)) * 0 / s);
}

/// The amplitude of the curve at control position `n`.
pub fn amplitude_for_position(n: u32) -> (r: u64)
    requires
        n <= POS_UNIT,
    ensures
        r == amp_for_spec(n as int),
        MIN_AMP_NANO <= r <= MAX_AMP_NANO,
{
    proof {
        lemma_pos_split(n as int);
        lemma_amp_seg_bounds(n as int);
        lemma_amp_knot_mono(0, (n as int) / (POS_STEP as int));
    }
    let i: usize = (n / POS_STEP) as usize;
    let f: u64 = (n % POS_STEP) as u64;
    if i >= 100 {
        MAX_AMP_NANO
    } else {
        let a0: u64 = amp_knot_at(i);
        let a1: u64 = amp_knot_at(i + 1);
        proof {
            lemma_amp_knot_mono(i as int, i as int + 1);
            lemma_amp_knot_mono(i as int + 1, 100);
            assert((a1 - a0) * f <= (MAX_AMP_NANO as u64) * (POS_STEP as u64)) by (nonlinear_arith)
                requires a1 - a0 <= MAX_AMP_NANO && f <= POS_STEP && a0 <= a1;
        }
        a0 + ((a1 - a0) * f) / (POS_STEP as u64)
    }
}

/// The conversion accumulator at unity gain: the 0 dB amplitude in nano
/// units, carried with 32 fractional bits. Unity is exact by construction.
pub const ACC_BASE: u128 = 4_294_967_296_000_000_000;

/// One centi-decibel upward as a multiplicative factor with 32 fractional
/// bits: slightly more than one.
pub const STEP_UP_FACTOR: u128 = 4_299_914_907;

/// One centi-decibel downward as a multiplicative factor with 32 fractional
/// bits: slightly less than one.
pub const STEP_DOWN_FACTOR: u128 = 4_290_025_378;

/// A ceiling on the accumulator, far above the +12 dB amplitude, that keeps
/// every intermediate product inside 128 bits.
pub const ACC_CAP: u128 = 0x4_0000_0000_0000_0000;

/// The scale of the accumulator's fractional part.
pub const ACC_ONE: u128 = 0x1_0000_0000;

/// The accumulator raised by one centi-decibel, truncating, held under the
/// ceiling.
pub open spec fn step_up(a: int) -> int {
    let next = a * (STEP_UP_FACTOR as int) / (ACC_ONE as int);
    if next > ACC_CAP as int {
        ACC_CAP as int
    } else {
        next
    }
}

/// The accumulator lowered by one centi-decibel, truncating.
pub open spec fn step_down(a: int) -> int {
    a * (STEP_DOWN_FACTOR as int) / (ACC_ONE as int)
}

/// The conversion accumulator at decibel level `c` (centi-decibels relative
/// to unity): exactly unity at zero, one multiplicative step per
/// centi-decibel above or below.
pub open spec fn amp_acc(c: int) -> int
    decreases (if c >= 0 { c } else { -c }),
{
    if c == 0 {
        ACC_BASE as int
    } else if c > 0 {
        step_up(amp_acc(c - 1))
    } else {
        step_down(amp_acc(c + 1))
    }
}

/// The accumulator never leaves the range that keeps its products in bounds.
pub proof fn lemma_acc_bounds(c: int)
    ensures
        0 <= amp_acc(c) <= ACC_CAP,
    decreases (if c >= 0 { c } else { -c }),
{
    let q = ACC_ONE as int;
    if c == 0 {
    } else if c > 0 {
        lemma_acc_bounds(c - 1);
        let a = amp_acc(c - 1);
        assert(a * (STEP_UP_FACTOR as int) >= 0) by (nonlinear_arith)
            requires a >= 0;
        vstd::arithmetic::div_mod::lemma_div_pos_is_pos(a * (STEP_UP_FACTOR as int), q);
    } else {
        lemma_acc_bounds(c + 1);
        let a = amp_acc(c + 1);
        assert(a * (STEP_DOWN_FACTOR as int) >= 0) by (nonlinear_arith)
            requires a >= 0;
        vstd::arithmetic::div_mod::lemma_div_pos_is_pos(a * (STEP_DOWN_FACTOR as int), q);
        assert(a * (STEP_DOWN_FACTOR as int) <= a * q) by (nonlinear_arith)
            requires a >= 0 && STEP_DOWN_FACTOR as int <= q;
        vstd::arithmetic::div_mod::lemma_div_is_ordered(
            a * (STEP_DOWN_FACTOR as int),
            a * q,
            q,
        );
        vstd::arithmetic::div_mod::lemma_div_multiples_vanish(a, q);
    }
}

/// An upward step never lowers the accumulator.
proof fn lemma_step_up_ge(a: int)
    requires
        0 <= a <= ACC_CAP,
    ensures
        a <= step_up(a),
{
    let q = ACC_ONE as int;
    assert(a * q <= a * (STEP_UP_FACTOR as int)) by (nonlinear_arith)
        requires a >= 0 && q <= STEP_UP_FACTOR as int;
    vstd::arithmetic::div_mod::lemma_div_is_ordered(a * q, a * (STEP_UP_FACTOR as int), q);
    vstd::arithmetic::div_mod::lemma_div_multiples_vanish(a, q);
}

/// A downward step never raises the accumulator.
proof fn lemma_step_down_le(a: int)
    requires
        0 <= a,
    ensures
        step_down(a) <= a,
{
    let q = ACC_ONE as int;
    assert(a * (STEP_DOWN_FACTOR as int) <= a * q) by (nonlinear_arith)
        requires a >= 0 && STEP_DOWN_FACTOR as int <= q;
    vstd::arithmetic::div_mod::lemma_div_is_ordered(a * (STEP_DOWN_FACTOR as int), a * q, q);
    vstd::arithmetic::div_mod::lemma_div_multiples_vanish(a, q);
}

/// The conversion is monotone: a higher decibel level never gives a smaller
/// accumulator.
pub proof fn lemma_acc_mono(c1: int, c2: int)
    requires
        c1 <= c2,
    ensures
        amp_acc(c1) <= amp_acc(c2),
    decreases c2 - c1,
{
    if c1 < c2 {
        lemma_acc_mono(c1, c2 - 1);
        if c2 > 0 {
            lemma_acc_bounds(c2 - 1);
            lemma_step_up_ge(amp_acc(c2 - 1));
        } else {
            lemma_acc_bounds(c2);
            lemma_step_down_le(amp_acc(c2));
        }
    }
}

/// An amplitude held to the curve's floor and ceiling.
pub open spec fn clamp_amp(a: int) -> int {
    if a < MIN_AMP_NANO as int {
        MIN_AMP_NANO as int
    } else if a > MAX_AMP_NANO as int {
        MAX_AMP_NANO as int
    } else {
        a
    }
}

/// The amplitude, in nano units, of a decibel level `cdb` in centi-decibels,
/// clamped to the curve's range.
pub open spec fn amp_of_cdb_spec(cdb: int) -> int {
    clamp_amp(amp_acc(cdb) / (ACC_ONE as int))
}

/// One upward step, in 128-bit arithmetic.
fn step_up_exec(a: u128) -> (r: u128)
    requires
        a <= ACC_CAP,
    ensures
        r == step_up(a as int),
        r <= ACC_CAP,
{
    proof {
        assert(a * STEP_UP_FACTOR <= ACC_CAP * STEP_UP_FACTOR) by (nonlinear_arith)
            requires a <= ACC_CAP;
        vstd::arithmetic::div_mod::lemma_div_pos_is_pos((a * STEP_UP_FACTOR) as int, ACC_ONE as int);
    }
    let next: u128 = a * STEP_UP_FACTOR / ACC_ONE;
    if next > ACC_CAP {
        ACC_CAP
    } else {
        next
    }
}

/// One downward step, in 128-bit arithmetic.
fn step_down_exec(a: u128) -> (r: u128)
    requires
        a <= ACC_CAP,
    ensures
        r == step_down(a as int),
        r <= ACC_CAP,
{
    proof {
        assert(a * STEP_DOWN_FACTOR <= ACC_CAP * STEP_DOWN_FACTOR) by (nonlinear_arith)
            requires a <= ACC_CAP;
        vstd::arithmetic::div_mod::lemma_div_pos_is_pos((a * STEP_DOWN_FACTOR) as int, ACC_ONE as int);
        lemma_step_down_le(a as int);
    }
    a * STEP_DOWN_FACTOR / ACC_ONE
}

/// The conversion accumulator of a decibel level, computed one centi-decibel
/// step at a time from exact unity.
pub fn acc_of_cdb(cdb: i32) -> (r: u128)
    requires
        MIN_CDB <= cdb <= MAX_CDB,
    ensures
        r == amp_acc(cdb as int),
{
    let mut acc: u128 = ACC_BASE;
    if cdb >= 0 {
        let mut i: i32 = 0;
        while i < cdb
            invariant
                0 <= i <= cdb,
                acc == amp_acc(i as int),
                acc <= ACC_CAP,
            decreases cdb - i,
        {
            acc = step_up_exec(acc);
            i = i + 1;
        }
    } else {
        let steps: i32 = -cdb;
        let mut i: i32 = 0;
        while i < steps
            invariant
                0 <= i <= steps,
                acc == amp_acc(-(i as int)),
                acc <= ACC_CAP,
            decreases steps - i,
        {
            acc = step_down_exec(acc);
            i = i + 1;
        }
    }
    acc
}

/// The amplitude of a decibel level, in nano units.
pub fn amplitude_of_cdb(cdb: i32) -> (r: u64)
    requires
        MIN_CDB <= cdb <= MAX_CDB,
    ensures
        r == amp_of_cdb_spec(cdb as int),
        MIN_AMP_NANO <= r <= MAX_AMP_NANO,
{
    let acc = acc_of_cdb(cdb);
    proof {
        lemma_acc_bounds(cdb as int);
        vstd::arithmetic::div_mod::lemma_div_pos_is_pos(acc as int, ACC_ONE as int);
        vstd::arithmetic::div_mod::lemma_div_is_ordered(acc as int, ACC_CAP as int, ACC_ONE as int);
    }
    let a_wide: u128 = acc / ACC_ONE;
    let a: u64 = a_wide as u64;
    if a < MIN_AMP_NANO {
        MIN_AMP_NANO
    } else if a > MAX_AMP_NANO {
        MAX_AMP_NANO
    } else {
        a
    }
}

/// The decibel level whose conversion bracket contains an amplitude: the
/// largest level whose accumulator does not exceed the amplitude (or the
/// floor level where even the floor's accumulator exceeds it). By
/// `lemma_acc_mono` this level is unique, and it is within one centi-decibel
/// of the amplitude's exact decibel value, so a display that shows it is
/// correct to the two decimals it prints.
pub fn level_of_amplitude(amp: u64) -> (r: i32)
    ensures
        MIN_CDB <= r <= MAX_CDB,
        amp_acc(r as int) <= (amp as int) * (ACC_ONE as int) || r == MIN_CDB,
        r == MAX_CDB || (amp as int) * (ACC_ONE as int) < amp_acc(r as int + 1),
{
    let target: u128 = (amp as u128) * ACC_ONE;
    let mut lo: i32 = MIN_CDB;
    let mut hi: i32 = MAX_CDB;
    while lo < hi
        invariant
            MIN_CDB <= lo <= hi <= MAX_CDB,
            target == (amp as int) * (ACC_ONE as int),
            amp_acc(lo as int) <= target || lo == MIN_CDB,
            hi == MAX_CDB || target < amp_acc(hi as int + 1),
        decreases hi - lo,
    {
        let mid: i32 = lo + (hi - lo + 1) / 2;
        if acc_of_cdb(mid) <= target {
            lo = mid;
        } else {
            hi = mid - 1;
        }
    }
    lo
}

} // verus!
