//! IEEE-754 numbers carried by their bit patterns.
//!
//! The interface stores, hands on and compares measurements; it does little
//! arithmetic of its own. A measurement is therefore kept as the bit pattern of
//! the number, which copies exactly, hashes exactly and can be compared without
//! rounding. `==` on these types compares bit patterns; `equals`, `less` and
//! `at_most` compare the numbers that the patterns stand for.
use vstd::arithmetic::power2::{lemma_pow2_pos, lemma_pow2_unfold, pow2};
use vstd::prelude::*;

verus! {

/// The sign bit of a double.
pub const SIGN64: u64 = 0x8000_0000_0000_0000;

/// The pattern of positive infinity; every larger magnitude is not a number.
pub const INFINITY64: u64 = 0x7FF0_0000_0000_0000;

/// The weight of the exponent field of a double: two to the power 52.
pub const MANTISSA64: u64 = 0x0010_0000_0000_0000;

/// The sign bit of a single.
pub const SIGN32: u32 = 0x8000_0000;

/// The pattern of positive infinity among singles.
pub const INFINITY32: u32 = 0x7F80_0000;

/// The weight of the exponent field of a single: two to the power 23.
pub const MANTISSA32: u32 = 0x0080_0000;

/// The number that a finite magnitude stands for, in units of the smallest
/// positive number of the format. `mantissa` is the weight of the exponent field.
pub open spec fn denotation(magnitude: nat, mantissa: nat) -> nat {
    if magnitude < mantissa {
        magnitude
    } else {
        (mantissa + magnitude % mantissa) * pow2((magnitude / mantissa - 1) as nat)
    }
}

/// One step up in magnitude is one step up in the number denoted.
proof fn lemma_denotation_step(magnitude: nat, mantissa: nat)
    requires
        mantissa > 0,
    ensures
        denotation(magnitude, mantissa) < denotation(magnitude + 1, mantissa),
{
    let m = mantissa as int;
    let k = magnitude as int;
    if k + 1 < m {
    } else if k + 1 == m {
        vstd::arithmetic::div_mod::lemma_fundamental_div_mod_converse(m, m, 1, 0);
        vstd::arithmetic::power2::lemma2_to64();
        assert(denotation(mantissa, mantissa) == mantissa * pow2(0));
    } else {
        let e = k / m;
        let f = k % m;
        vstd::arithmetic::div_mod::lemma_fundamental_div_mod(k, m);
        assert(0 <= f < m);
        assert(e >= 1) by {
            vstd::arithmetic::div_mod::lemma_div_is_ordered(m, k, m);
            vstd::arithmetic::div_mod::lemma_fundamental_div_mod_converse(m, m, 1, 0);
        }
        let p = pow2((e - 1) as nat);
        lemma_pow2_pos((e - 1) as nat);
        if f + 1 < m {
            vstd::arithmetic::div_mod::lemma_fundamental_div_mod_converse(k + 1, m, e, f + 1);
            assert((m + f) * p < (m + f + 1) * p) by (nonlinear_arith)
                requires
                    p > 0,
            ;
        } else {
            assert(k + 1 == m * (e + 1)) by (nonlinear_arith)
                requires
                    k == m * e + f,
                    f + 1 == m,
            ;
            vstd::arithmetic::div_mod::lemma_fundamental_div_mod_converse(k + 1, m, e + 1, 0);
            lemma_pow2_unfold(e as nat);
            let q = pow2(e as nat);
            assert(q == 2 * p);
            assert((m + f) * p < (m + 0) * q) by (nonlinear_arith)
                requires
                    p > 0,
                    q == 2 * p,
                    f + 1 == m,
            ;
        }
    }
}

proof fn lemma_denotation_grows(low: nat, high: nat, mantissa: nat)
    requires
        mantissa > 0,
        low < high,
    ensures
        denotation(low, mantissa) < denotation(high, mantissa),
    decreases high - low,
{
    lemma_denotation_step(low, mantissa);
    if low + 1 < high {
        lemma_denotation_grows(low + 1, high, mantissa);
    }
}

/// The order of magnitudes, with a sign, is the order of the numbers denoted.
proof fn lemma_signed_order(a: nat, a_negative: bool, b: nat, b_negative: bool, mantissa: nat)
    requires
        mantissa > 0,
    ensures
        ({
            let left = if a_negative { -(a as int) } else { a as int };
            let right = if b_negative { -(b as int) } else { b as int };
            let x = if a_negative { -(denotation(a, mantissa) as int) } else { denotation(a, mantissa) as int };
            let y = if b_negative { -(denotation(b, mantissa) as int) } else { denotation(b, mantissa) as int };
            (left < right <==> x < y) && (left == right <==> x == y)
        }),
{
    assert(denotation(0, mantissa) == 0);
    if 0 < a {
        lemma_denotation_grows(0, a, mantissa);
    }
    if 0 < b {
        lemma_denotation_grows(0, b, mantissa);
    }
    if a < b {
        lemma_denotation_grows(a, b, mantissa);
    }
    if b < a {
        lemma_denotation_grows(b, a, mantissa);
    }
}

/// A double-precision number, by its bit pattern.
#[derive(Clone, Copy, Debug, PartialEq, Eq, Hash, Structural)]
pub struct Real64 {
    pub bits: u64,
}

impl Real64 {
    pub open spec fn negative(self) -> bool {
        self.bits >= SIGN64
    }

    /// The pattern without its sign.
    pub open spec fn magnitude(self) -> nat {
        if self.negative() {
            (self.bits - SIGN64) as nat
        } else {
            self.bits as nat
        }
    }

    /// Neither infinite nor not-a-number.
    pub open spec fn finite(self) -> bool {
        self.magnitude() < INFINITY64
    }

    pub open spec fn nan(self) -> bool {
        self.magnitude() > INFINITY64
    }

    /// The magnitude with its sign: both zeros rank alike.
    pub open spec fn rank(self) -> int {
        if self.negative() {
            -(self.magnitude() as int)
        } else {
            self.magnitude() as int
        }
    }

    /// The number that a finite pattern stands for, in units of the smallest
    /// positive double.
    pub open spec fn value(self) -> int {
        if self.negative() {
            -(denotation(self.magnitude(), MANTISSA64 as nat) as int)
        } else {
            denotation(self.magnitude(), MANTISSA64 as nat) as int
        }
    }

    /// Numeric equality: not-a-number equals nothing, the two zeros are equal.
    pub open spec fn eq_number(self, other: Real64) -> bool {
        !self.nan() && !other.nan() && self.rank() == other.rank()
    }

    /// Numeric order: not-a-number compares with nothing.
    pub open spec fn lt_number(self, other: Real64) -> bool {
        !self.nan() && !other.nan() && self.rank() < other.rank()
    }

    pub open spec fn le_number(self, other: Real64) -> bool {
        !self.nan() && !other.nan() && self.rank() <= other.rank()
    }

    pub fn is_finite(self) -> (r: bool)
        ensures
            r == self.finite(),
    {
        if self.bits >= SIGN64 {
            self.bits - SIGN64 < INFINITY64
        } else {
            self.bits < INFINITY64
        }
    }

    pub fn is_nan(self) -> (r: bool)
        ensures
            r == self.nan(),
    {
        if self.bits >= SIGN64 {
            self.bits - SIGN64 > INFINITY64
        } else {
            self.bits > INFINITY64
        }
    }

    /// The same number without its sign.
    pub open spec fn abs_value(self) -> Real64 {
        if self.negative() {
            Real64 { bits: (self.bits - SIGN64) as u64 }
        } else {
            self
        }
    }

    pub fn abs(self) -> (r: Real64)
        ensures
            r == self.abs_value(),
            !r.negative(),
            r.magnitude() == self.magnitude(),
    {
        if self.bits >= SIGN64 {
            Real64 { bits: self.bits - SIGN64 }
        } else {
            self
        }
    }

    pub fn less(self, other: Real64) -> (r: bool)
        ensures
            r == self.lt_number(other),
    {
        if self.is_nan() || other.is_nan() {
            false
        } else if self.bits >= SIGN64 {
            if other.bits >= SIGN64 {
                self.bits > other.bits
            } else {
                self.bits != SIGN64 || other.bits != 0
            }
        } else {
            other.bits < SIGN64 && self.bits < other.bits
        }
    }

    pub fn at_most(self, other: Real64) -> (r: bool)
        ensures
            r == self.le_number(other),
    {
        !self.is_nan() && !other.is_nan() && !other.less(self)
    }

    pub fn equals(self, other: Real64) -> (r: bool)
        ensures
            r == self.eq_number(other),
    {
        self.at_most(other) && other.at_most(self)
    }

    /// The nearest number between two bounds; not-a-number stays as it is.
    pub open spec fn held_between(self, low: Real64, high: Real64) -> Real64 {
        if self.lt_number(low) {
            low
        } else if high.lt_number(self) {
            high
        } else {
            self
        }
    }

    pub fn clamp_to(self, low: Real64, high: Real64) -> (r: Real64)
        requires
            low.le_number(high),
        ensures
            r == self.held_between(low, high),
            !self.nan() ==> low.le_number(r) && r.le_number(high),
    {
        if self.less(low) {
            low
        } else if high.less(self) {
            high
        } else {
            self
        }
    }

    /// Whether this number precedes the other in the total order of patterns:
    /// negative not-a-number, the negative numbers, minus zero, zero, the
    /// positive numbers, positive not-a-number.
    pub open spec fn precedes(self, other: Real64) -> bool {
        self.total_rank() < other.total_rank()
    }

    /// The place of a pattern in the total order.
    pub open spec fn total_rank(self) -> int {
        if self.negative() {
            -(self.magnitude() as int) - 1
        } else {
            self.magnitude() as int
        }
    }

    pub fn is_before(self, other: Real64) -> (r: bool)
        ensures
            r == self.precedes(other),
    {
        if self.bits >= SIGN64 {
            other.bits < SIGN64 || self.bits > other.bits
        } else {
            other.bits < SIGN64 && self.bits < other.bits
        }
    }
}

/// Comparing finite doubles by their patterns compares the numbers they stand for.
pub proof fn finite_doubles_compare_as_numbers(a: Real64, b: Real64)
    requires
        a.finite(),
        b.finite(),
    ensures
        a.lt_number(b) <==> a.value() < b.value(),
        a.le_number(b) <==> a.value() <= b.value(),
        a.eq_number(b) <==> a.value() == b.value(),
{
    lemma_signed_order(a.magnitude(), a.negative(), b.magnitude(), b.negative(), MANTISSA64 as nat);
}

/// The total order extends the numeric order: what is less also comes before.
pub proof fn less_numbers_come_before(a: Real64, b: Real64)
    requires
        a.lt_number(b),
    ensures
        a.precedes(b),
{
}

/// A single-precision number, by its bit pattern.
#[derive(Clone, Copy, Debug, PartialEq, Eq, Hash, Structural)]
pub struct Real32 {
    pub bits: u32,
}

impl Real32 {
    pub open spec fn negative(self) -> bool {
        self.bits >= SIGN32
    }

    pub open spec fn magnitude(self) -> nat {
        if self.negative() {
            (self.bits - SIGN32) as nat
        } else {
            self.bits as nat
        }
    }

    pub open spec fn finite(self) -> bool {
        self.magnitude() < INFINITY32
    }

    pub open spec fn nan(self) -> bool {
        self.magnitude() > INFINITY32
    }

    pub open spec fn rank(self) -> int {
        if self.negative() {
            -(self.magnitude() as int)
        } else {
            self.magnitude() as int
        }
    }

    /// The number that a finite pattern stands for, in units of the smallest
    /// positive single.
    pub open spec fn value(self) -> int {
        if self.negative() {
            -(denotation(self.magnitude(), MANTISSA32 as nat) as int)
        } else {
            denotation(self.magnitude(), MANTISSA32 as nat) as int
        }
    }

    pub open spec fn eq_number(self, other: Real32) -> bool {
        !self.nan() && !other.nan() && self.rank() == other.rank()
    }

    pub open spec fn lt_number(self, other: Real32) -> bool {
        !self.nan() && !other.nan() && self.rank() < other.rank()
    }

    pub open spec fn le_number(self, other: Real32) -> bool {
        !self.nan() && !other.nan() && self.rank() <= other.rank()
    }

    pub fn is_nan(self) -> (r: bool)
        ensures
            r == self.nan(),
    {
        if self.bits >= SIGN32 {
            self.bits - SIGN32 > INFINITY32
        } else {
            self.bits > INFINITY32
        }
    }

    pub fn less(self, other: Real32) -> (r: bool)
        ensures
            r == self.lt_number(other),
    {
        if self.is_nan() || other.is_nan() {
            false
        } else if self.bits >= SIGN32 {
            if other.bits >= SIGN32 {
                self.bits > other.bits
            } else {
                self.bits != SIGN32 || other.bits != 0
            }
        } else {
            other.bits < SIGN32 && self.bits < other.bits
        }
    }

    pub fn at_most(self, other: Real32) -> (r: bool)
        ensures
            r == self.le_number(other),
    {
        !self.is_nan() && !other.is_nan() && !other.less(self)
    }

    /// The place of a pattern in the total order.
    pub open spec fn total_rank(self) -> int {
        if self.negative() {
            -(self.magnitude() as int) - 1
        } else {
            self.magnitude() as int
        }
    }

    /// Whether this number precedes the other in the total order of patterns.
    pub fn is_before(self, other: Real32) -> (r: bool)
        ensures
            r == (self.total_rank() < other.total_rank()),
    {
        if self.bits >= SIGN32 {
            other.bits < SIGN32 || self.bits > other.bits
        } else {
            other.bits < SIGN32 && self.bits < other.bits
        }
    }

    pub fn equals(self, other: Real32) -> (r: bool)
        ensures
            r == self.eq_number(other),
    {
        self.at_most(other) && other.at_most(self)
    }
}

/// Comparing finite singles by their patterns compares the numbers they stand for.
pub proof fn finite_singles_compare_as_numbers(a: Real32, b: Real32)
    requires
        a.finite(),
        b.finite(),
    ensures
        a.lt_number(b) <==> a.value() < b.value(),
        a.le_number(b) <==> a.value() <= b.value(),
        a.eq_number(b) <==> a.value() == b.value(),
{
    lemma_signed_order(a.magnitude(), a.negative(), b.magnitude(), b.negative(), MANTISSA32 as nat);
}

/// A pair of doubles.
#[derive(Clone, Copy, Debug, PartialEq, Eq, Hash, Structural)]
pub struct Pair64 {
    pub x: Real64,
    pub y: Real64,
}

/// A point or a vector of the world.
#[derive(Clone, Copy, Debug, PartialEq, Eq, Hash, Structural)]
pub struct Vec3 {
    pub x: Real64,
    pub y: Real64,
    pub z: Real64,
}

/// A position on screen, in physical pixels.
#[derive(Clone, Copy, Debug, PartialEq, Eq, Hash, Structural)]
pub struct Pixel {
    pub x: Real32,
    pub y: Real32,
}

/// A colour in linear components.
#[derive(Clone, Copy, Debug, PartialEq, Eq, Hash, Structural)]
pub struct Rgba {
    pub r: Real32,
    pub g: Real32,
    pub b: Real32,
    pub a: Real32,
}

impl Real64 {
    /// The pattern stands for the ratio of two integers, to the nearest number of its size:
    /// it is off by no more than half of its last place.
    pub open spec fn is_nearest(self, numerator: int, denominator: nat) -> bool {
        let off = self.value() * denominator - numerator * pow2(1074);
        let place = pow2((self.magnitude() / (MANTISSA64 as nat) - 1) as nat);
        &&& self.finite()
        &&& self.magnitude() >= MANTISSA64
        &&& -(denominator * place) <= 2 * off <= denominator * place
    }
}

/// The powers of two that the patterns of everyday numbers are made of.
pub(crate) proof fn lemma_powers()
    ensures
        pow2(17) == 0x20000,
        pow2(20) == 0x100000,
        pow2(21) == 0x200000,
        pow2(23) == 0x800000,
        pow2(24) == 0x1000000,
        pow2(33) == 0x200000000,
        pow2(43) == 0x80000000000,
        pow2(44) == 0x100000000000,
        pow2(45) == 0x200000000000,
        pow2(46) == 0x400000000000,
        pow2(47) == 0x800000000000,
        pow2(48) == 0x1000000000000,
        pow2(49) == 0x2000000000000,
        pow2(50) == 0x4000000000000,
        pow2(51) == 0x8000000000000,
        pow2(52) == 0x10000000000000,
        pow2(53) == 0x20000000000000,
        pow2(55) == 0x80000000000000,
        pow2(56) == 0x100000000000000,
        pow2(57) == 0x200000000000000,
        pow2(58) == 0x400000000000000,
        pow2(59) == 0x800000000000000,
        pow2(62) == 0x4000000000000000,
        pow2(66) == 0x40000000000000000,
        pow2(82) == 0x400000000000000000000,
{
    vstd::arithmetic::power2::lemma2_to64();
    vstd::arithmetic::power2::lemma2_to64_rest();
    vstd::arithmetic::power2::lemma_pow2_adds(64, 2);
    vstd::arithmetic::power2::lemma_pow2_adds(64, 18);
}

/// A pattern with exponent field `exponent` stands for a ratio where its fraction does, both
/// taken in units of its last place.
pub(crate) proof fn lemma_nearest(number: Real64, numerator: int, denominator: nat, exponent: nat, shift: nat)
    requires
        number.finite(),
        exponent >= 1,
        exponent + shift == 1075,
        number.magnitude() / (MANTISSA64 as nat) == exponent,
        ({
            let fraction = (MANTISSA64 + number.magnitude() % (MANTISSA64 as nat)) * denominator;
            let signed = if number.negative() { -fraction } else { fraction };
            -denominator <= 2 * (signed - numerator * pow2(shift)) <= denominator
        }),
    ensures
        number.is_nearest(numerator, denominator),
{
    let place = pow2((exponent - 1) as nat) as int;
    lemma_pow2_pos((exponent - 1) as nat);
    vstd::arithmetic::power2::lemma_pow2_adds(shift, (exponent - 1) as nat);
    let power = pow2(shift) as int;
    let m = MANTISSA64 + number.magnitude() % (MANTISSA64 as nat);
    let d = denominator as int;
    let n = numerator;
    assert(number.magnitude() >= MANTISSA64) by {
        if number.magnitude() < MANTISSA64 {
            vstd::arithmetic::div_mod::lemma_basic_div(number.magnitude() as int, MANTISSA64 as int);
        }
    }
    assert(pow2(1074) == power * place);
    let signed = if number.negative() { -m } else { m };
    assert(number.value() == signed * place) by (nonlinear_arith)
        requires
            number.value() == (if number.negative() { -(m * place) } else { m * place }),
            signed == (if number.negative() { -m } else { m }),
    ;
    let within = signed * d - n * power;
    assert(number.value() * d - n * pow2(1074) == within * place) by (nonlinear_arith)
        requires
            number.value() == signed * place,
            pow2(1074) == power * place,
            within == signed * d - n * power,
    ;
    assert(-d <= 2 * within <= d) by (nonlinear_arith)
        requires
            within == signed * d - n * power,
            signed == (if number.negative() { -m } else { m }),
            ({
                let fraction = m * d;
                let s = if number.negative() { -fraction } else { fraction };
                -d <= 2 * (s - n * power) <= d
            }),
    ;
    assert(-(d * place) <= 2 * (within * place) <= d * place) by (nonlinear_arith)
        requires
            -d <= 2 * within <= d,
            place > 0,
    ;
}

/// The order of numbers beyond the finite ones: of any two that are numbers exactly one of
/// less, equal and greater holds, an infinity is beyond every finite number on its side, and
/// something that is no number compares with nothing, not even itself.
pub proof fn doubles_are_ordered(a: Real64, b: Real64, c: Real64)
    ensures
        !a.nan() && !b.nan() ==> (a.lt_number(b) || a.eq_number(b) || b.lt_number(a)),
        !(a.lt_number(b) && (a.eq_number(b) || b.lt_number(a))),
        a.le_number(b) <==> a.lt_number(b) || a.eq_number(b),
        a.lt_number(b) && b.lt_number(c) ==> a.lt_number(c),
        a.finite() && b.magnitude() == INFINITY64 ==> if b.negative() {
            b.lt_number(a)
        } else {
            a.lt_number(b)
        },
        a.nan() ==> !a.eq_number(a) && !a.lt_number(b) && !b.lt_number(a) && !a.le_number(b) && !b.le_number(a),
        !a.nan() ==> a.eq_number(a),
        a.finite() || a.nan() || a.magnitude() == INFINITY64,
        !(a.finite() && a.nan()),
{
}

/// The same of singles.
pub proof fn singles_are_ordered(a: Real32, b: Real32, c: Real32)
    ensures
        !a.nan() && !b.nan() ==> (a.lt_number(b) || a.eq_number(b) || b.lt_number(a)),
        !(a.lt_number(b) && (a.eq_number(b) || b.lt_number(a))),
        a.le_number(b) <==> a.lt_number(b) || a.eq_number(b),
        a.lt_number(b) && b.lt_number(c) ==> a.lt_number(c),
        a.finite() && b.magnitude() == INFINITY32 ==> if b.negative() {
            b.lt_number(a)
        } else {
            a.lt_number(b)
        },
        a.nan() ==> !a.eq_number(a) && !a.lt_number(b) && !b.lt_number(a) && !a.le_number(b) && !b.le_number(a),
        !a.nan() ==> a.eq_number(a),
{
}

/// A number that is held between two bounds stays where it is inside them and goes to the
/// nearer bound outside; nothing inside is nearer to it.
pub proof fn held_numbers_go_to_the_nearest(number: Real64, low: Real64, high: Real64, other: Real64)
    requires
        low.le_number(high),
        !number.nan(),
    ensures
        low.le_number(number) && number.le_number(high) ==> number.held_between(low, high) == number,
        number.lt_number(low) ==> number.held_between(low, high) == low,
        high.lt_number(number) ==> number.held_between(low, high) == high,
        low.le_number(number.held_between(low, high)) && number.held_between(low, high).le_number(high),
        low.le_number(other) && other.le_number(high) && number.le_number(other) ==> number.held_between(low, high).le_number(other),
        low.le_number(other) && other.le_number(high) && other.le_number(number) ==> other.le_number(number.held_between(low, high)),
        number.held_between(low, high).held_between(low, high) == number.held_between(low, high),
{
}

/// A number without its sign is as far from zero as with it, on the positive side.
pub proof fn sizes_have_no_sign(number: Real64)
    ensures
        !number.abs_value().negative(),
        number.abs_value().magnitude() == number.magnitude(),
        number.finite() ==> number.abs_value().value() == (if number.value() < 0 {
            -number.value()
        } else {
            number.value()
        }),
        number.nan() == number.abs_value().nan(),
{
    if number.finite() {
        lemma_signed_order(number.magnitude(), false, 0, false, MANTISSA64 as nat);
    }
}

/// The total order tells every two patterns apart and puts the numbers in their order, the
/// negative zero before the other and whatever is no number at the ends.
pub proof fn total_order_tells_patterns_apart(a: Real64, b: Real64, c: Real32, d: Real32)
    ensures
        a.total_rank() == b.total_rank() <==> a == b,
        a.lt_number(b) ==> a.precedes(b),
        a.negative() && !b.negative() ==> a.precedes(b),
        a.nan() && !b.nan() ==> (a.precedes(b) <==> a.negative()),
        c.total_rank() == d.total_rank() <==> c == d,
        c.lt_number(d) ==> c.total_rank() < d.total_rank(),
        c.negative() && !d.negative() ==> c.total_rank() < d.total_rank(),
        c.nan() && !d.nan() ==> (c.total_rank() < d.total_rank() <==> c.negative()),
{
}

impl Real32 {
    /// The pattern stands for the ratio of two integers, to the nearest number of its size.
    pub open spec fn is_nearest(self, numerator: int, denominator: nat) -> bool {
        let off = self.value() * denominator - numerator * pow2(149);
        let place = pow2((self.magnitude() / (MANTISSA32 as nat) - 1) as nat);
        &&& self.finite()
        &&& self.magnitude() >= MANTISSA32
        &&& -(denominator * place) <= 2 * off <= denominator * place
    }
}

/// A single with exponent field `exponent` stands for a ratio where its fraction does.
pub(crate) proof fn lemma_nearest_single(number: Real32, numerator: int, denominator: nat, exponent: nat, shift: nat)
    requires
        number.finite(),
        exponent >= 1,
        exponent + shift == 150,
        number.magnitude() / (MANTISSA32 as nat) == exponent,
        ({
            let fraction = (MANTISSA32 + number.magnitude() % (MANTISSA32 as nat)) * denominator;
            let signed = if number.negative() { -fraction } else { fraction };
            -denominator <= 2 * (signed - numerator * pow2(shift)) <= denominator
        }),
    ensures
        number.is_nearest(numerator, denominator),
{
    let place = pow2((exponent - 1) as nat) as int;
    lemma_pow2_pos((exponent - 1) as nat);
    vstd::arithmetic::power2::lemma_pow2_adds(shift, (exponent - 1) as nat);
    let power = pow2(shift) as int;
    let m = MANTISSA32 + number.magnitude() % (MANTISSA32 as nat);
    let d = denominator as int;
    let n = numerator;
    assert(number.magnitude() >= MANTISSA32) by {
        if number.magnitude() < MANTISSA32 {
            vstd::arithmetic::div_mod::lemma_basic_div(number.magnitude() as int, MANTISSA32 as int);
        }
    }
    assert(pow2(149) == power * place);
    let signed = if number.negative() { -m } else { m };
    assert(number.value() == signed * place) by (nonlinear_arith)
        requires
            number.value() == (if number.negative() { -(m * place) } else { m * place }),
            signed == (if number.negative() { -m } else { m }),
    ;
    let within = signed * d - n * power;
    assert(number.value() * d - n * pow2(149) == within * place) by (nonlinear_arith)
        requires
            number.value() == signed * place,
            pow2(149) == power * place,
            within == signed * d - n * power,
    ;
    assert(-d <= 2 * within <= d) by (nonlinear_arith)
        requires
            within == signed * d - n * power,
            signed == (if number.negative() { -m } else { m }),
            ({
                let fraction = m * d;
                let s = if number.negative() { -fraction } else { fraction };
                -d <= 2 * (s - n * power) <= d
            }),
    ;
    assert(-(d * place) <= 2 * (within * place) <= d * place) by (nonlinear_arith)
        requires
            -d <= 2 * within <= d,
            place > 0,
    ;
}

} // verus!
