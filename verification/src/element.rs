//! The capability bundle a matrix element type must provide: an additive
//! identity ("zero"), duplication, addition and multiplication, together
//! with the semiring laws that matrix algebra relies on.

use vstd::arithmetic::div_mod::{
    lemma_add_mod_noop, lemma_fundamental_div_mod_converse_mod, lemma_mod_bound, lemma_mod_twice,
    lemma_mod_sub_multiples_vanish, lemma_mul_mod_noop_general,
};
use vstd::arithmetic::mul::{lemma_mul_is_associative, lemma_mul_is_distributive_add};
use vstd::prelude::*;
use vstd::wrapping::{i64_specs, i8_specs};

verus! {

/// A numeric-like element type. The spec functions say what the
/// operations mean mathematically; the executable functions must return
/// exactly those values; the proof obligations make every instance a
/// commutative-monoid-under-addition semiring, which the matrix laws
/// (zero matrix is an additive identity, multiplication is associative)
/// are proved from.
pub trait Element: Sized {
    /// The additive identity of the type, as a mathematical value.
    spec fn zero_spec() -> Self;

    /// What addition of two values means.
    spec fn add_spec(self, other: Self) -> Self;

    /// What multiplication of two values means.
    spec fn mul_spec(self, other: Self) -> Self;

    /// Construct the additive identity.
    fn zero() -> (r: Self)
        ensures
            r == Self::zero_spec(),
    ;

    /// Duplicate a value; the copy equals the original.
    fn dup(&self) -> (r: Self)
        ensures
            r == *self,
    ;

    /// Add two values.
    fn add(self, other: Self) -> (r: Self)
        ensures
            r == self.add_spec(other),
    ;

    /// Multiply two values.
    fn mul(self, other: Self) -> (r: Self)
        ensures
            r == self.mul_spec(other),
    ;

    /// Addition is commutative.
    proof fn lemma_add_comm(a: Self, b: Self)
        ensures
            a.add_spec(b) == b.add_spec(a),
    ;

    /// Addition is associative.
    proof fn lemma_add_assoc(a: Self, b: Self, c: Self)
        ensures
            a.add_spec(b).add_spec(c) == a.add_spec(b.add_spec(c)),
    ;

    /// Zero is an identity for addition.
    proof fn lemma_add_zero(a: Self)
        ensures
            Self::zero_spec().add_spec(a) == a,
            a.add_spec(Self::zero_spec()) == a,
    ;

    /// Multiplication is associative.
    proof fn lemma_mul_assoc(a: Self, b: Self, c: Self)
        ensures
            a.mul_spec(b).mul_spec(c) == a.mul_spec(b.mul_spec(c)),
    ;

    /// Zero annihilates under multiplication.
    proof fn lemma_mul_zero(a: Self)
        ensures
            Self::zero_spec().mul_spec(a) == Self::zero_spec(),
            a.mul_spec(Self::zero_spec()) == Self::zero_spec(),
    ;

    /// Multiplication distributes over addition on the left.
    proof fn lemma_distributive_left(a: Self, b: Self, c: Self)
        ensures
            a.mul_spec(b.add_spec(c)) == a.mul_spec(b).add_spec(a.mul_spec(c)),
    ;

    /// Multiplication distributes over addition on the right.
    proof fn lemma_distributive_right(a: Self, b: Self, c: Self)
        ensures
            a.add_spec(b).mul_spec(c) == a.mul_spec(c).add_spec(b.mul_spec(c)),
    ;
}

/// Reducing a mathematical integer into the `i8` range only depends on
/// its residue modulo 256.
proof fn lemma_crop8_congruent(x: int, y: int)
    requires
        x % 256 == y % 256,
    ensures
        i8_specs::signed_crop(x) == i8_specs::signed_crop(y),
{
}

/// Reducing an integer already in the `i8` range leaves it unchanged.
proof fn lemma_crop8_small(x: int)
    requires
        -128 <= x <= 127,
    ensures
        i8_specs::signed_crop(x) == x,
{
    if x >= 0 {
        lemma_fundamental_div_mod_converse_mod(x, 256, 0, x);
    } else {
        lemma_fundamental_div_mod_converse_mod(x, 256, -1, x + 256);
    }
}

/// The reduced value keeps the residue of the original modulo 256.
proof fn lemma_crop8_mod(x: int)
    ensures
        (i8_specs::signed_crop(x) as int) % 256 == x % 256,
        -128 <= i8_specs::signed_crop(x) <= 127,
{
    lemma_mod_bound(x, 256);
    lemma_mod_twice(x, 256);
    if x % 256 > 127 {
        lemma_mod_sub_multiples_vanish(x % 256, 256);
    }
}

impl Element for i8 {
    /// Zero is the additive identity of `i8`.
    open spec fn zero_spec() -> i8 {
        0
    }

    /// Addition on `i8` wraps around modulo 256.
    open spec fn add_spec(self, other: i8) -> i8 {
        i8_specs::signed_crop(self + other)
    }

    /// Multiplication on `i8` wraps around modulo 256.
    open spec fn mul_spec(self, other: i8) -> i8 {
        i8_specs::signed_crop(self * other)
    }

    fn zero() -> (r: i8) {
        0
    }

    fn dup(&self) -> (r: i8) {
        *self
    }

    fn add(self, other: i8) -> (r: i8) {
        proof {
            let x = self + other;
            if x > 127 {
                lemma_mod_sub_multiples_vanish(x, 256);
                lemma_crop8_congruent(x, x - 256);
                lemma_crop8_small(x - 256);
            } else if x < -128 {
                lemma_mod_sub_multiples_vanish(x + 256, 256);
                lemma_crop8_congruent(x, x + 256);
                lemma_crop8_small(x + 256);
            } else {
                lemma_crop8_small(x);
            }
        }
        self.wrapping_add(other)
    }

    fn mul(self, other: i8) -> (r: i8) {
        self.wrapping_mul(other)
    }

    proof fn lemma_add_comm(a: i8, b: i8) {
    }

    proof fn lemma_add_assoc(a: i8, b: i8, c: i8) {
        let u = i8_specs::signed_crop(a + b);
        let v = i8_specs::signed_crop(b + c);
        lemma_crop8_mod(a + b);
        lemma_crop8_mod(b + c);
        lemma_add_mod_noop(u as int, c as int, 256);
        lemma_add_mod_noop(a + b, c as int, 256);
        lemma_add_mod_noop(a as int, v as int, 256);
        lemma_add_mod_noop(a as int, b + c, 256);
        lemma_crop8_congruent(u + c, a as int + b + c);
        lemma_crop8_congruent(a + v, a as int + b + c);
    }

    proof fn lemma_add_zero(a: i8) {
        lemma_crop8_small(a as int);
    }

    proof fn lemma_mul_assoc(a: i8, b: i8, c: i8) {
        let u = i8_specs::signed_crop(a * b);
        let v = i8_specs::signed_crop(b * c);
        lemma_crop8_mod(a * b);
        lemma_crop8_mod(b * c);
        lemma_mul_mod_noop_general(u as int, c as int, 256);
        lemma_mul_mod_noop_general(a * b, c as int, 256);
        lemma_mul_mod_noop_general(a as int, v as int, 256);
        lemma_mul_mod_noop_general(a as int, b * c, 256);
        lemma_mul_is_associative(a as int, b as int, c as int);
        lemma_crop8_congruent(u * c, (a * b) * c);
        lemma_crop8_congruent(a * v, (a * b) * c);
    }

    proof fn lemma_mul_zero(a: i8) {
        lemma_crop8_small(0);
    }

    proof fn lemma_distributive_left(a: i8, b: i8, c: i8) {
        let v = i8_specs::signed_crop(b + c);
        let ab = i8_specs::signed_crop(a * b);
        let ac = i8_specs::signed_crop(a * c);
        lemma_crop8_mod(b + c);
        lemma_crop8_mod(a * b);
        lemma_crop8_mod(a * c);
        lemma_mul_mod_noop_general(a as int, v as int, 256);
        lemma_mul_mod_noop_general(a as int, b + c, 256);
        lemma_mul_is_distributive_add(a as int, b as int, c as int);
        lemma_add_mod_noop(ab as int, ac as int, 256);
        lemma_add_mod_noop(a * b, a * c, 256);
        lemma_crop8_congruent(a * v, a * b + a * c);
        lemma_crop8_congruent(ab + ac, a * b + a * c);
    }

    proof fn lemma_distributive_right(a: i8, b: i8, c: i8) {
        let u = i8_specs::signed_crop(a + b);
        let ac = i8_specs::signed_crop(a * c);
        let bc = i8_specs::signed_crop(b * c);
        lemma_crop8_mod(a + b);
        lemma_crop8_mod(a * c);
        lemma_crop8_mod(b * c);
        lemma_mul_mod_noop_general(u as int, c as int, 256);
        lemma_mul_mod_noop_general(a + b, c as int, 256);
        assert((a + b) * c == a * c + b * c) by (nonlinear_arith);
        lemma_add_mod_noop(ac as int, bc as int, 256);
        lemma_add_mod_noop(a * c, b * c, 256);
        lemma_crop8_congruent(u * c, a * c + b * c);
        lemma_crop8_congruent(ac + bc, a * c + b * c);
    }
}

/// Reducing a mathematical integer into the `i64` range only depends on
/// its residue modulo 2^64.
proof fn lemma_crop64_congruent(x: int, y: int)
    requires
        x % 0x1_0000_0000_0000_0000 == y % 0x1_0000_0000_0000_0000,
    ensures
        i64_specs::signed_crop(x) == i64_specs::signed_crop(y),
{
}

/// Reducing an integer already in the `i64` range leaves it unchanged.
proof fn lemma_crop64_small(x: int)
    requires
        -0x8000_0000_0000_0000 <= x <= 0x7fff_ffff_ffff_ffff,
    ensures
        i64_specs::signed_crop(x) == x,
{
    if x >= 0 {
        lemma_fundamental_div_mod_converse_mod(x, 0x1_0000_0000_0000_0000, 0, x);
    } else {
        lemma_fundamental_div_mod_converse_mod(
            x,
            0x1_0000_0000_0000_0000,
            -1,
            x + 0x1_0000_0000_0000_0000,
        );
    }
}

/// The reduced value keeps the residue of the original modulo 2^64.
proof fn lemma_crop64_mod(x: int)
    ensures
        (i64_specs::signed_crop(x) as int) % 0x1_0000_0000_0000_0000 == x
            % 0x1_0000_0000_0000_0000,
        -0x8000_0000_0000_0000 <= i64_specs::signed_crop(x) <= 0x7fff_ffff_ffff_ffff,
{
    lemma_mod_bound(x, 0x1_0000_0000_0000_0000);
    lemma_mod_twice(x, 0x1_0000_0000_0000_0000);
    if x % 0x1_0000_0000_0000_0000 > 0x7fff_ffff_ffff_ffff {
        lemma_mod_sub_multiples_vanish(
            x % 0x1_0000_0000_0000_0000,
            0x1_0000_0000_0000_0000,
        );
    }
}

impl Element for i64 {
    /// Zero is the additive identity of `i64`.
    open spec fn zero_spec() -> i64 {
        0
    }

    /// Addition on `i64` wraps around modulo 2^64.
    open spec fn add_spec(self, other: i64) -> i64 {
        i64_specs::signed_crop(self + other)
    }

    /// Multiplication on `i64` wraps around modulo 2^64.
    open spec fn mul_spec(self, other: i64) -> i64 {
        i64_specs::signed_crop(self * other)
    }

    fn zero() -> (r: i64) {
        0
    }

    fn dup(&self) -> (r: i64) {
        *self
    }

    fn add(self, other: i64) -> (r: i64) {
        proof {
            let x = self + other;
            if x > 0x7fff_ffff_ffff_ffff {
                lemma_mod_sub_multiples_vanish(x, 0x1_0000_0000_0000_0000);
                lemma_crop64_congruent(x, x - 0x1_0000_0000_0000_0000);
                lemma_crop64_small(x - 0x1_0000_0000_0000_0000);
            } else if x < -0x8000_0000_0000_0000 {
                lemma_mod_sub_multiples_vanish(
                    x + 0x1_0000_0000_0000_0000,
                    0x1_0000_0000_0000_0000,
                );
                lemma_crop64_congruent(x, x + 0x1_0000_0000_0000_0000);
                lemma_crop64_small(x + 0x1_0000_0000_0000_0000);
            } else {
                lemma_crop64_small(x);
            }
        }
        self.wrapping_add(other)
    }

    fn mul(self, other: i64) -> (r: i64) {
        self.wrapping_mul(other)
    }

    proof fn lemma_add_comm(a: i64, b: i64) {
    }

    proof fn lemma_add_assoc(a: i64, b: i64, c: i64) {
        let u = i64_specs::signed_crop(a + b);
        let v = i64_specs::signed_crop(b + c);
        lemma_crop64_mod(a + b);
        lemma_crop64_mod(b + c);
        lemma_add_mod_noop(u as int, c as int, 0x1_0000_0000_0000_0000);
        lemma_add_mod_noop(a + b, c as int, 0x1_0000_0000_0000_0000);
        lemma_add_mod_noop(a as int, v as int, 0x1_0000_0000_0000_0000);
        lemma_add_mod_noop(a as int, b + c, 0x1_0000_0000_0000_0000);
        lemma_crop64_congruent(u + c, a as int + b + c);
        lemma_crop64_congruent(a + v, a as int + b + c);
    }

    proof fn lemma_add_zero(a: i64) {
        lemma_crop64_small(a as int);
    }

    proof fn lemma_mul_assoc(a: i64, b: i64, c: i64) {
        let u = i64_specs::signed_crop(a * b);
        let v = i64_specs::signed_crop(b * c);
        lemma_crop64_mod(a * b);
        lemma_crop64_mod(b * c);
        lemma_mul_mod_noop_general(u as int, c as int, 0x1_0000_0000_0000_0000);
        lemma_mul_mod_noop_general(a * b, c as int, 0x1_0000_0000_0000_0000);
        lemma_mul_mod_noop_general(a as int, v as int, 0x1_0000_0000_0000_0000);
        lemma_mul_mod_noop_general(a as int, b * c, 0x1_0000_0000_0000_0000);
        lemma_mul_is_associative(a as int, b as int, c as int);
        lemma_crop64_congruent(u * c, (a * b) * c);
        lemma_crop64_congruent(a * v, (a * b) * c);
    }

    proof fn lemma_mul_zero(a: i64) {
        lemma_crop64_small(0);
    }

    proof fn lemma_distributive_left(a: i64, b: i64, c: i64) {
        let v = i64_specs::signed_crop(b + c);
        let ab = i64_specs::signed_crop(a * b);
        let ac = i64_specs::signed_crop(a * c);
        lemma_crop64_mod(b + c);
        lemma_crop64_mod(a * b);
        lemma_crop64_mod(a * c);
        lemma_mul_mod_noop_general(a as int, v as int, 0x1_0000_0000_0000_0000);
        lemma_mul_mod_noop_general(a as int, b + c, 0x1_0000_0000_0000_0000);
        lemma_mul_is_distributive_add(a as int, b as int, c as int);
        lemma_add_mod_noop(ab as int, ac as int, 0x1_0000_0000_0000_0000);
        lemma_add_mod_noop(a * b, a * c, 0x1_0000_0000_0000_0000);
        lemma_crop64_congruent(a * v, a * b + a * c);
        lemma_crop64_congruent(ab + ac, a * b + a * c);
    }

    proof fn lemma_distributive_right(a: i64, b: i64, c: i64) {
        let u = i64_specs::signed_crop(a + b);
        let ac = i64_specs::signed_crop(a * c);
        let bc = i64_specs::signed_crop(b * c);
        lemma_crop64_mod(a + b);
        lemma_crop64_mod(a * c);
        lemma_crop64_mod(b * c);
        lemma_mul_mod_noop_general(u as int, c as int, 0x1_0000_0000_0000_0000);
        lemma_mul_mod_noop_general(a + b, c as int, 0x1_0000_0000_0000_0000);
        assert((a + b) * c == a * c + b * c) by (nonlinear_arith);
        lemma_add_mod_noop(ac as int, bc as int, 0x1_0000_0000_0000_0000);
        lemma_add_mod_noop(a * c, b * c, 0x1_0000_0000_0000_0000);
        lemma_crop64_congruent(u * c, a * c + b * c);
        lemma_crop64_congruent(ac + bc, a * c + b * c);
    }
}

} // verus!
