//! The calibration curve from panel brightness to HDR content brightness, and the encoding of the
//! latter as an SDR white level.
//!
//! The curve is
//!
//! ```text
//! f(b) = 100 * (b^2.4 - 42^2.4) / (98^2.4 - 42^2.4)
//! ```
//!
//! The exponent is the fraction 12/5, so a bound on `b^2.4` is a bound on a fifth root: `n / s`
//! is at most `b^2.4` exactly if `n^5` is at most `s^5 * b^12`. All statements about the curve
//! are made through such bounds.

use vstd::arithmetic::power::{lemma_pow1, lemma_pow_adds, pow};
use vstd::prelude::*;

verus! {

/// The panel brightness up to which the balance is zero.
pub const BRIGHTNESS_LOW: u8 = 42;

/// The panel brightness from which on the balance is 100.
pub const BRIGHTNESS_HIGH: u8 = 98;

/// The exponent of the curve is this number over `GAMMA_DENOMINATOR`.
pub const GAMMA_NUMERATOR: u8 = 12;

/// See `GAMMA_NUMERATOR`.
pub const GAMMA_DENOMINATOR: u8 = 5;

/// The fifth power.
pub open spec fn pow5(x: int) -> int {
    x * x * x * x * x
}

/// The twelfth power.
pub open spec fn pow12(x: int) -> int {
    (x * x * x) * (x * x * x) * (x * x * x) * (x * x * x)
}

/// The two powers are those of the curve's exponent: the twelfth is that of its numerator, the
/// fifth that of its denominator.
pub proof fn powers_are_those_of_the_exponent(x: int)
    ensures
        pow12(x) == pow(x, GAMMA_NUMERATOR as nat),
        pow5(x) == pow(x, GAMMA_DENOMINATOR as nat),
{
    let (cube, fifth) = (x * x * x, x * x * x * x * x);
    lemma_pow1(x);
    lemma_pow_adds(x, 1, 1);
    lemma_pow_adds(x, 2, 1);
    lemma_pow_adds(x, 3, 1);
    lemma_pow_adds(x, 4, 1);
    lemma_pow_adds(x, 3, 3);
    lemma_pow_adds(x, 6, 3);
    lemma_pow_adds(x, 9, 3);
    assert(pow(x, 3) == cube);
    assert(pow(x, 5) == fifth);
}

/// `n / s` is at most `b^2.4`.
pub open spec fn at_most_power(n: int, s: int, b: int) -> bool {
    pow5(n) <= pow5(s) * pow12(b)
}

/// `n / s` is at least `b^2.4`.
pub open spec fn at_least_power(n: int, s: int, b: int) -> bool {
    pow5(s) * pow12(b) <= pow5(n)
}

/// The fractions `x / s`, `low / s` and `high / s` show that `f(b) > q / 2`.
pub open spec fn shows_above(b: int, q: int, s: int, x: int, low: int, high: int) -> bool {
    &&& s > 0
    &&& x >= 0
    &&& low >= 0
    &&& high >= 0
    &&& at_most_power(x, s, b)
    &&& at_least_power(low, s, BRIGHTNESS_LOW as int)
    &&& at_least_power(high, s, BRIGHTNESS_HIGH as int)
    &&& q * high + (200 - q) * low < 200 * x
}

/// The fractions `x / s`, `low / s` and `high / s` show that `f(b) < q / 2`.
pub open spec fn shows_below(b: int, q: int, s: int, x: int, low: int, high: int) -> bool {
    &&& s > 0
    &&& x >= 0
    &&& low >= 0
    &&& high >= 0
    &&& at_least_power(x, s, b)
    &&& at_most_power(low, s, BRIGHTNESS_LOW as int)
    &&& at_most_power(high, s, BRIGHTNESS_HIGH as int)
    &&& 200 * x < q * high + (200 - q) * low
}

/// `f(b) > q / 2`, for `q` from 0 to 200.
pub open spec fn curve_above(b: int, q: int) -> bool {
    exists|s: int, x: int, low: int, high: int| #[trigger] shows_above(b, q, s, x, low, high)
}

/// `f(b) < q / 2`, for `q` from 0 to 200.
pub open spec fn curve_below(b: int, q: int) -> bool {
    exists|s: int, x: int, low: int, high: int| #[trigger] shows_below(b, q, s, x, low, high)
}

/// `balance` is the integer nearest to `f(b)`: it is less than one half away.
pub open spec fn nearest_to_curve(b: int, balance: int) -> bool {
    &&& 1 <= balance <= 99
    &&& curve_above(b, 2 * balance - 1)
    &&& curve_below(b, 2 * balance + 1)
}

/// The calibrated balance for a panel brightness: on the curve in its domain, and saturated
/// outside.
pub open spec fn calibrated(brightness: int, balance: int) -> bool {
    if brightness <= BRIGHTNESS_LOW {
        balance == 0
    } else if brightness >= BRIGHTNESS_HIGH {
        balance == 100
    } else {
        nearest_to_curve(brightness, balance)
    }
}

/// The balance for each brightness strictly between the ends of the curve, in order.
pub open spec fn balances() -> Seq<int> {
    seq![
        1, 2, 3, 4, 5, 6, 7, 8, 9, 10, 11, 12, 14, 15, 16, 18, 19, 20, 22, 23, 25, 26, 28, 29, 31,
        33, 35, 36, 38, 40, 42, 44, 45, 47, 49, 51, 54, 56, 58, 60, 62, 64, 67, 69, 71, 74, 76, 79,
        81, 84, 86, 89, 92, 94, 97,
    ]
}

/// The balance for a brightness, as a number.
pub open spec fn balance_for(brightness: int) -> int {
    if brightness <= BRIGHTNESS_LOW {
        0
    } else if brightness >= BRIGHTNESS_HIGH {
        100
    } else {
        balances()[brightness - BRIGHTNESS_LOW - 1]
    }
}

/// The fifth power grows strictly.
proof fn pow5_grows(x: int, y: int)
    requires
        0 <= x < y,
    ensures
        pow5(x) < pow5(y),
        pow5(x) >= 0,
{
    assert(0 <= x * x <= x * y <= y * y) by (nonlinear_arith)
        requires
            0 <= x < y,
    ;
    assert(x * x < y * y) by (nonlinear_arith)
        requires
            0 <= x < y,
    ;
    let (a, b) = (x * x, y * y);
    assert(0 <= a * a && a * a < b * b) by (nonlinear_arith)
        requires
            0 <= a < b,
    ;
    let (c, d) = (a * a, b * b);
    assert(0 <= c * x && c * x < d * y) by (nonlinear_arith)
        requires
            0 <= c < d,
            0 <= x < y,
    ;
    assert(pow5(x) == c * x) by (nonlinear_arith)
        requires
            c == (x * x) * (x * x),
            pow5(x) == x * x * x * x * x,
    ;
    assert(pow5(y) == d * y) by (nonlinear_arith)
        requires
            d == (y * y) * (y * y),
            pow5(y) == y * y * y * y * y,
    ;
}

/// The twelfth power does not fall.
proof fn pow12_grows(x: int, y: int)
    requires
        0 <= x <= y,
    ensures
        0 <= pow12(x) <= pow12(y),
{
    let (a, b) = (x * x * x, y * y * y);
    assert(0 <= a <= b) by (nonlinear_arith)
        requires
            0 <= x <= y,
            a == x * x * x,
            b == y * y * y,
    ;
    assert(0 <= a * a <= b * b) by (nonlinear_arith)
        requires
            0 <= a <= b,
    ;
    let (c, d) = (a * a, b * b);
    assert(0 <= c * c <= d * d) by (nonlinear_arith)
        requires
            0 <= c <= d,
    ;
    assert(pow12(x) == c * c) by (nonlinear_arith)
        requires
            c == a * a,
            pow12(x) == a * a * a * a,
    ;
    assert(pow12(y) == d * d) by (nonlinear_arith)
        requires
            d == b * b,
            pow12(y) == b * b * b * b,
    ;
}

/// The fifth power of a product.
proof fn pow5_of_product(x: int, y: int)
    ensures
        pow5(x * y) == pow5(x) * pow5(y),
{
    assert((x * y) * (x * y) * (x * y) * (x * y) * (x * y) == (x * x * x * x * x) * (y * y * y * y
        * y)) by (nonlinear_arith);
}

/// If `n / s` is at most `b^2.4`, and `m / t` at least `c^2.4`, and `b` is at most `c`, then
/// `n / s` is at most `m / t`.
proof fn bounds_are_ordered(n: int, s: int, b: int, m: int, t: int, c: int)
    requires
        s > 0,
        t > 0,
        n >= 0,
        m >= 0,
        0 <= b <= c,
        at_most_power(n, s, b),
        at_least_power(m, t, c),
    ensures
        n * t <= m * s,
{
    pow12_grows(b, c);
    pow5_grows(0, s);
    pow5_grows(0, t);
    let (ps, pt, pn, pm, pb, pc) = (pow5(s), pow5(t), pow5(n), pow5(m), pow12(b), pow12(c));
    assert(pn * pt <= pm * ps) by (nonlinear_arith)
        requires
            pn <= ps * pb,
            pt * pc <= pm,
            0 <= pb <= pc,
            ps > 0,
            pt > 0,
    {
        assert(pn * pt <= (ps * pb) * pt);
        assert((ps * pb) * pt <= (ps * pc) * pt);
        assert((ps * pc) * pt == ps * (pt * pc));
        assert(ps * (pt * pc) <= ps * pm);
    }
    pow5_of_product(n, t);
    pow5_of_product(m, s);
    assert(n * t >= 0) by (nonlinear_arith)
        requires
            n >= 0,
            t > 0,
    ;
    assert(m * s >= 0) by (nonlinear_arith)
        requires
            m >= 0,
            s > 0,
    ;
    if n * t > m * s {
        pow5_grows(m * s, n * t);
    }
}

/// The balance does not fall when the panel gets brighter.
pub proof fn calibrated_balance_is_monotone(
    brightness: int,
    balance: int,
    brighter: int,
    brighter_balance: int,
)
    requires
        0 <= brightness <= brighter,
        calibrated(brightness, balance),
        calibrated(brighter, brighter_balance),
    ensures
        balance <= brighter_balance,
{
    if BRIGHTNESS_LOW < brightness && brighter < BRIGHTNESS_HIGH {
        let (q, p) = (2 * balance - 1, 2 * brighter_balance + 1);
        let (s, x, low, high) = choose|s: int, x: int, low: int, high: int|
            #[trigger] shows_above(brightness, q, s, x, low, high);
        let (t, y, floor, ceiling) = choose|s: int, x: int, low: int, high: int|
            #[trigger] shows_below(brighter, p, s, x, low, high);
        if p <= q {
            bounds_are_ordered(x, s, brightness, y, t, brighter);
            bounds_are_ordered(floor, t, 42, low, s, 42);
            bounds_are_ordered(ceiling, t, 98, high, s, 98);
            bounds_are_ordered(floor, t, 42, high, s, 98);
            let (a, c, d, e) = (high * t, low * t, ceiling * s, floor * s);
            scaled(q, high, low, t);
            scaled(p, ceiling, floor, s);
            assert((q * high + (200 - q) * low) * t < 200 * (x * t)) by (nonlinear_arith)
                requires
                    t > 0,
                    q * high + (200 - q) * low < 200 * x,
            ;
            assert(200 * (y * s) < (p * ceiling + (200 - p) * floor) * s) by (nonlinear_arith)
                requires
                    s > 0,
                    200 * y < p * ceiling + (200 - p) * floor,
            ;
            assert(p * d <= p * a) by (nonlinear_arith)
                requires
                    d <= a,
                    p >= 0,
            ;
            assert((200 - q) * e <= (200 - q) * c) by (nonlinear_arith)
                requires
                    e <= c,
                    q <= 200,
            ;
            assert((q - p) * e <= (q - p) * a) by (nonlinear_arith)
                requires
                    e <= a,
                    p <= q,
            ;
            assert((200 - p) * e == (200 - q) * e + (q - p) * e) by (nonlinear_arith);
            assert(q * a == p * a + (q - p) * a) by (nonlinear_arith);
            assert(false);
        }
    }
}

/// A mean of two numbers with weights `q` and `200 - q`, scaled.
proof fn scaled(q: int, high: int, low: int, factor: int)
    ensures
        (q * high + (200 - q) * low) * factor == q * (high * factor) + (200 - q) * (low * factor),
{
    let (first, second) = (q * high, (200 - q) * low);
    assert((first + second) * factor == first * factor + second * factor) by (nonlinear_arith);
    assert((q * high) * factor == q * (high * factor)) by (nonlinear_arith);
    let rest = 200 - q;
    assert((rest * low) * factor == rest * (low * factor)) by (nonlinear_arith);
}

/// The balance is from 0 to 100.
pub proof fn calibrated_balance_is_bounded(brightness: int, balance: int)
    requires
        calibrated(brightness, balance),
    ensures
        0 <= balance <= 100,
{
}

/// One brightness has one balance.
pub proof fn calibrated_balance_is_unique(brightness: int, first: int, second: int)
    requires
        0 <= brightness,
        calibrated(brightness, first),
        calibrated(brightness, second),
    ensures
        first == second,
{
    calibrated_balance_is_monotone(brightness, first, brightness, second);
    calibrated_balance_is_monotone(brightness, second, brightness, first);
}

/// Inside the domain of the curve the balance is neither of its extremes.
pub proof fn calibrated_balance_is_strict_at_the_ends(brightness: int, balance: int)
    requires
        BRIGHTNESS_LOW < brightness < BRIGHTNESS_HIGH,
        calibrated(brightness, balance),
    ensures
        0 < balance < 100,
{
}

/// `n` is `b^2.4`, rounded down.
pub open spec fn is_power_floor(n: int, b: int) -> bool {
    n >= 0 && pow5(n) <= pow12(b) < pow5(n + 1)
}

/// A number has one fifth root, rounded down.
proof fn power_is(x: int, n: int, b: int)
    requires
        is_power_floor(x, b),
        is_power_floor(n, b),
    ensures
        x == n,
{
    if x < n {
        if x + 1 < n {
            pow5_grows(x + 1, n);
        }
    } else if n < x {
        if n + 1 < x {
            pow5_grows(n + 1, x);
        }
    }
}

/// The powers of the brightness values in the domain of the curve and at its ends, rounded down.
proof fn power_floors()
    by (nonlinear_arith)
    ensures
        is_power_floor(7866, 42),
        is_power_floor(8323, 43),
        is_power_floor(8796, 44),
        is_power_floor(9283, 45),
        is_power_floor(9786, 46),
        is_power_floor(10304, 47),
        is_power_floor(10838, 48),
        is_power_floor(11388, 49),
        is_power_floor(11954, 50),
        is_power_floor(12536, 51),
        is_power_floor(13134, 52),
        is_power_floor(13748, 53),
        is_power_floor(14379, 54),
        is_power_floor(15026, 55),
        is_power_floor(15691, 56),
        is_power_floor(16371, 57),
        is_power_floor(17069, 58),
        is_power_floor(17784, 59),
        is_power_floor(18516, 60),
        is_power_floor(19266, 61),
        is_power_floor(20032, 62),
        is_power_floor(20816, 63),
        is_power_floor(21618, 64),
        is_power_floor(22438, 65),
        is_power_floor(23275, 66),
        is_power_floor(24131, 67),
        is_power_floor(25004, 68),
        is_power_floor(25896, 69),
        is_power_floor(26806, 70),
        is_power_floor(27734, 71),
        is_power_floor(28681, 72),
        is_power_floor(29646, 73),
        is_power_floor(30630, 74),
        is_power_floor(31633, 75),
        is_power_floor(32655, 76),
        is_power_floor(33695, 77),
        is_power_floor(34755, 78),
        is_power_floor(35834, 79),
        is_power_floor(36933, 80),
        is_power_floor(38050, 81),
        is_power_floor(39188, 82),
        is_power_floor(40344, 83),
        is_power_floor(41521, 84),
        is_power_floor(42717, 85),
        is_power_floor(43933, 86),
        is_power_floor(45169, 87),
        is_power_floor(46425, 88),
        is_power_floor(47701, 89),
        is_power_floor(48998, 90),
        is_power_floor(50315, 91),
        is_power_floor(51652, 92),
        is_power_floor(53010, 93),
        is_power_floor(54388, 94),
        is_power_floor(55787, 95),
        is_power_floor(57207, 96),
        is_power_floor(58647, 97),
        is_power_floor(60109, 98),
{
}

/// The fifth power of a number that is at most 65536.
fn fifth_power(x: u128) -> (power: u128)
    requires
        x <= 65536,
    ensures
        power == pow5(x as int),
{
    let ghost n = x as int;
    assert(0 <= n * n <= 0x1_0000_0000 && 0 <= n * n * n <= 0x1_0000_0000_0000 && 0 <= n * n * n * n
        <= 0x1_0000_0000_0000_0000 && 0 <= n * n * n * n * n <= 0x1_0000_0000_0000_0000_0000)
        by (nonlinear_arith)
        requires
            0 <= n <= 65536,
    {
        assert(0 <= n * n <= 65536 * 65536);
        assert(0 <= (n * n) * n <= 0x1_0000_0000 * 65536);
        assert(0 <= (n * n * n) * n <= 0x1_0000_0000_0000 * 65536);
        assert(0 <= (n * n * n * n) * n <= 0x1_0000_0000_0000_0000 * 65536);
    }
    x * x * x * x * x
}

/// The twelfth power of a number that is at most 98.
fn twelfth_power(x: u8) -> (power: u128)
    requires
        x <= 98,
    ensures
        power == pow12(x as int),
        power < 0x1_0000_0000_0000_0000_0000,
{
    let ghost n = x as int;
    proof {
        pow12_grows(n, 98);
        assert(0 <= n * n <= 9604 && 0 <= n * n * n <= 941192) by (nonlinear_arith)
            requires
                0 <= n <= 98,
        {
            assert(0 <= n * n <= 98 * 98);
            assert(0 <= (n * n) * n <= 9604 * 98);
        }
    }
    let base: u128 = x as u128;
    let cube: u128 = base * base * base;
    let ghost c = cube as int;
    assert(0 <= c * c <= 0x100_0000_0000 && 0 <= c * c * c <= 0x1000_0000_0000_0000 && 0 <= c * c * c
        * c < 0x1_0000_0000_0000_0000_0000) by (nonlinear_arith)
        requires
            0 <= c <= 941192,
    {
        assert(0 <= c * c <= 941192 * 941192);
        assert(0 <= (c * c) * c <= 885842380864 * 941192);
        assert(0 <= (c * c * c) * c <= 833747762130149888 * 941192);
    }
    cube * cube * cube * cube
}

/// `b^2.4`, rounded down.
fn power_floor(b: u8) -> (n: u128)
    requires
        b <= 98,
    ensures
        is_power_floor(n as int, b as int),
        n < 65536,
{
    let power: u128 = twelfth_power(b);
    let mut low: u128 = 0;
    let mut high: u128 = 65536;
    while low + 1 < high
        invariant
            power == pow12(b as int),
            low < high <= 65536,
            pow5(low as int) <= power < pow5(high as int),
        decreases high - low,
    {
        let middle: u128 = (low + high) / 2;
        if fifth_power(middle) <= power {
            low = middle;
        } else {
            high = middle;
        }
    }
    low
}

/// Bounds with the denominator one.
proof fn over_one(n: int, b: int)
    by (nonlinear_arith)
    ensures
        at_most_power(n, 1, b) <==> pow5(n) <= pow12(b),
        at_least_power(n, 1, b) <==> pow12(b) <= pow5(n),
{
}

/// Powers rounded down to whole numbers are exact enough: the balance that is computed from them
/// is the one nearest to the curve.
pub proof fn balance_is_nearest(b: int, x: int, low: int, high: int, balance: int)
    requires
        BRIGHTNESS_LOW < b < BRIGHTNESS_HIGH,
        is_power_floor(x, b),
        is_power_floor(low, BRIGHTNESS_LOW as int),
        is_power_floor(high, BRIGHTNESS_HIGH as int),
        balance == (200 * (x - low) + (high - low)) / (2 * (high - low)),
    ensures
        nearest_to_curve(b, balance),
        balance == balance_for(b),
{
    power_floors();
    power_is(low, 7866, 42);
    power_is(high, 60109, 98);
    if b == 43 {
        power_is(x, 8323, 43);
    } else if b == 44 {
        power_is(x, 8796, 44);
    } else if b == 45 {
        power_is(x, 9283, 45);
    } else if b == 46 {
        power_is(x, 9786, 46);
    } else if b == 47 {
        power_is(x, 10304, 47);
    } else if b == 48 {
        power_is(x, 10838, 48);
    } else if b == 49 {
        power_is(x, 11388, 49);
    } else if b == 50 {
        power_is(x, 11954, 50);
    } else if b == 51 {
        power_is(x, 12536, 51);
    } else if b == 52 {
        power_is(x, 13134, 52);
    } else if b == 53 {
        power_is(x, 13748, 53);
    } else if b == 54 {
        power_is(x, 14379, 54);
    } else if b == 55 {
        power_is(x, 15026, 55);
    } else if b == 56 {
        power_is(x, 15691, 56);
    } else if b == 57 {
        power_is(x, 16371, 57);
    } else if b == 58 {
        power_is(x, 17069, 58);
    } else if b == 59 {
        power_is(x, 17784, 59);
    } else if b == 60 {
        power_is(x, 18516, 60);
    } else if b == 61 {
        power_is(x, 19266, 61);
    } else if b == 62 {
        power_is(x, 20032, 62);
    } else if b == 63 {
        power_is(x, 20816, 63);
    } else if b == 64 {
        power_is(x, 21618, 64);
    } else if b == 65 {
        power_is(x, 22438, 65);
    } else if b == 66 {
        power_is(x, 23275, 66);
    } else if b == 67 {
        power_is(x, 24131, 67);
    } else if b == 68 {
        power_is(x, 25004, 68);
    } else if b == 69 {
        power_is(x, 25896, 69);
    } else if b == 70 {
        power_is(x, 26806, 70);
    } else if b == 71 {
        power_is(x, 27734, 71);
    } else if b == 72 {
        power_is(x, 28681, 72);
    } else if b == 73 {
        power_is(x, 29646, 73);
    } else if b == 74 {
        power_is(x, 30630, 74);
    } else if b == 75 {
        power_is(x, 31633, 75);
    } else if b == 76 {
        power_is(x, 32655, 76);
    } else if b == 77 {
        power_is(x, 33695, 77);
    } else if b == 78 {
        power_is(x, 34755, 78);
    } else if b == 79 {
        power_is(x, 35834, 79);
    } else if b == 80 {
        power_is(x, 36933, 80);
    } else if b == 81 {
        power_is(x, 38050, 81);
    } else if b == 82 {
        power_is(x, 39188, 82);
    } else if b == 83 {
        power_is(x, 40344, 83);
    } else if b == 84 {
        power_is(x, 41521, 84);
    } else if b == 85 {
        power_is(x, 42717, 85);
    } else if b == 86 {
        power_is(x, 43933, 86);
    } else if b == 87 {
        power_is(x, 45169, 87);
    } else if b == 88 {
        power_is(x, 46425, 88);
    } else if b == 89 {
        power_is(x, 47701, 89);
    } else if b == 90 {
        power_is(x, 48998, 90);
    } else if b == 91 {
        power_is(x, 50315, 91);
    } else if b == 92 {
        power_is(x, 51652, 92);
    } else if b == 93 {
        power_is(x, 53010, 93);
    } else if b == 94 {
        power_is(x, 54388, 94);
    } else if b == 95 {
        power_is(x, 55787, 95);
    } else if b == 96 {
        power_is(x, 57207, 96);
    } else {
        power_is(x, 58647, 97);
    }
    assert(balance == (200 * (x - 7866) + 52243) / 104486);
    over_one(x, b);
    over_one(x + 1, b);
    over_one(7866, 42);
    over_one(7867, 42);
    over_one(60109, 98);
    over_one(60110, 98);
    let (above, below) = (2 * balance - 1, 2 * balance + 1);
    assert(shows_above(b, above, 1, x, 7867, 60110));
    assert(shows_below(b, below, 1, x + 1, 7866, 60109));
}

/// The HDR content brightness, from 0 to 100, that goes with a panel brightness.
#[must_use]
pub fn hdr_balance(brightness: u8) -> (balance: u8)
    ensures
        calibrated(brightness as int, balance as int),
        balance == balance_for(brightness as int),
        balance <= 100,
        brightness <= 42 <==> balance == 0,
        brightness >= 98 <==> balance == 100,
{
    if brightness <= BRIGHTNESS_LOW {
        return 0;
    }
    if brightness >= BRIGHTNESS_HIGH {
        return 100;
    }
    let low: u128 = power_floor(BRIGHTNESS_LOW);
    let high: u128 = power_floor(BRIGHTNESS_HIGH);
    let value: u128 = power_floor(brightness);
    proof {
        power_floors();
        power_is(low as int, 7866, 42);
        power_is(high as int, 60109, 98);
        if value < low {
            pow12_grows(42, brightness as int);
            if value + 1 < low {
                pow5_grows(value + 1, low as int);
            }
        }
        balance_is_nearest(
            brightness as int,
            value as int,
            low as int,
            high as int,
            (200 * (value - low) + (high - low)) / (2 * (high - low)),
        );
    }
    let rounded: u128 = (200 * (value - low) + (high - low)) / (2 * (high - low));
    rounded as u8
}

/// The SDR white level that encodes a balance.
pub open spec fn white_level(balance: int) -> int {
    1000 + 50 * balance
}

/// Encodes the 0 to 100 HDR content brightness as an SDR white level.
///
/// The slider of the system settings maps linearly from 80 to 480 nits. The fixed-point white
/// level is a thousand times the nits over 80.
#[must_use]
pub fn encode_sdr_white_level(balance: u8) -> (level: u32)
    ensures
        level == white_level(balance as int),
        level == 1000 + 50 * balance,
{
    1_000 + 50 * balance as u32
}

/// A white level stands for `80 + 4 * balance` nits: it is a thousand times that over 80.
pub proof fn white_level_encodes_nits(balance: int)
    ensures
        80 * white_level(balance) == 1000 * (80 + 4 * balance),
        white_level(0) == 1000,
        white_level(100) == 6000,
{
}

/// Two balances have one white level only if they are one.
pub proof fn white_level_is_injective(first: int, second: int)
    ensures
        white_level(first) == white_level(second) <==> first == second,
        white_level(first) < white_level(second) <==> first < second,
{
}

/// Fractions with one denominator that bound powers of the brightness.
pub struct Bounds {
    pub denominator: int,
    pub value: int,
    pub low: int,
    pub high: int,
}

/// Between the ends of its domain the curve lies above the balance less one half: there are a bound
/// from below for the power of the brightness, and bounds from above for those of the ends, with which
/// even the least value of the curve is above it.
pub proof fn curve_is_above_the_balance_less_one_half(brightness: int, balance: int) -> (bounds:
    Bounds)
    requires
        42 < brightness < 98,
        calibrated(brightness, balance),
    ensures
        bounds.denominator > 0,
        bounds.value >= 0,
        bounds.low >= 0,
        bounds.high >= 0,
        pow(bounds.value, 5) <= pow(bounds.denominator, 5) * pow(brightness, 12),
        pow(bounds.low, 5) >= pow(bounds.denominator, 5) * pow(42, 12),
        pow(bounds.high, 5) >= pow(bounds.denominator, 5) * pow(98, 12),
        200 * (bounds.value - bounds.low) > (2 * balance - 1) * (bounds.high - bounds.low),
{
    let q = 2 * balance - 1;
    let (s, x, low, high) = choose|s: int, x: int, low: int, high: int|
        #[trigger] shows_above(brightness, q, s, x, low, high);
    powers_are_those_of_the_exponent(s);
    powers_are_those_of_the_exponent(x);
    powers_are_those_of_the_exponent(low);
    powers_are_those_of_the_exponent(high);
    powers_are_those_of_the_exponent(brightness);
    powers_are_those_of_the_exponent(42);
    powers_are_those_of_the_exponent(98);
    weights_differ(q, high, low);
    Bounds { denominator: s, value: x, low, high }
}

/// Between the ends of its domain the curve lies below the balance and one half.
pub proof fn curve_is_below_the_balance_and_one_half(brightness: int, balance: int) -> (bounds:
    Bounds)
    requires
        42 < brightness < 98,
        calibrated(brightness, balance),
    ensures
        bounds.denominator > 0,
        bounds.value >= 0,
        bounds.low >= 0,
        bounds.high >= 0,
        pow(bounds.value, 5) >= pow(bounds.denominator, 5) * pow(brightness, 12),
        pow(bounds.low, 5) <= pow(bounds.denominator, 5) * pow(42, 12),
        pow(bounds.high, 5) <= pow(bounds.denominator, 5) * pow(98, 12),
        200 * (bounds.value - bounds.low) < (2 * balance + 1) * (bounds.high - bounds.low),
{
    let q = 2 * balance + 1;
    let (s, x, low, high) = choose|s: int, x: int, low: int, high: int|
        #[trigger] shows_below(brightness, q, s, x, low, high);
    powers_are_those_of_the_exponent(s);
    powers_are_those_of_the_exponent(x);
    powers_are_those_of_the_exponent(low);
    powers_are_those_of_the_exponent(high);
    powers_are_those_of_the_exponent(brightness);
    powers_are_those_of_the_exponent(42);
    powers_are_those_of_the_exponent(98);
    weights_differ(q, high, low);
    Bounds { denominator: s, value: x, low, high }
}

/// A mean with weights, by how far it is from its lower end.
proof fn weights_differ(q: int, high: int, low: int)
    ensures
        q * high + (200 - q) * low == q * (high - low) + 200 * low,
{
    assert(q * high + (200 - q) * low == q * (high - low) + 200 * low) by (nonlinear_arith);
}

/// Outside the domain of the curve the balance is one of its extremes, and inside it is neither.
pub proof fn balance_is_saturated_outside_the_domain(brightness: int, balance: int)
    requires
        calibrated(brightness, balance),
    ensures
        brightness <= 42 <==> balance == 0,
        brightness >= 98 <==> balance == 100,
{
}

/// Every number has a fifth root, rounded down.
proof fn fifth_root(power: int) -> (root: int)
    requires
        power >= 0,
    ensures
        root >= 0,
        pow5(root) <= power < pow5(root + 1),
    decreases power,
{
    if power == 0 {
        0
    } else {
        let root = fifth_root(power - 1);
        pow5_grows(root + 1, root + 2);
        if pow5(root + 1) <= power {
            root + 1
        } else {
            root
        }
    }
}

/// Every brightness has a calibrated balance, and the table holds it.
pub proof fn tabulated_balance_is_calibrated(brightness: int)
    requires
        0 <= brightness,
    ensures
        calibrated(brightness, balance_for(brightness)),
{
    if BRIGHTNESS_LOW < brightness && brightness < BRIGHTNESS_HIGH {
        pow12_grows(0, brightness);
        power_floors();
        let x = fifth_root(pow12(brightness));
        let balance = (200 * (x - 7866) + (60109 - 7866)) / (2 * (60109 - 7866));
        balance_is_nearest(brightness, x, 7866, 60109, balance);
    }
}

} // verus!
