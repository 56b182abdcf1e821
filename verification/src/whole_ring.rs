//! Whole numbers that wrap around form a commutative ring, so what holds of
//! the bounce in exact arithmetic holds of it on whole numbers.

use crate::exact::exact_arithmetic;
use crate::whole::Whole;
use vstd::arithmetic::div_mod::{lemma_mod_multiples_vanish, lemma_mul_mod_noop_general};
use vstd::prelude::*;
use vstd::std_specs::ops::{AddSpec, MulSpec};
use vstd::wrapping::i64_specs::signed_crop;

verus! {

/// The number of 64-bit patterns: wrapping arithmetic is arithmetic up to
/// multiples of it.
pub open spec fn range() -> int {
    0x1_0000_0000_0000_0000
}

/// Whole numbers that differ by a multiple of the range wrap to the same
/// number.
proof fn same_remainder_same_crop(x: int, y: int)
    requires
        x % range() == y % range(),
    ensures
        signed_crop(x) == signed_crop(y),
{
}

/// Wrapping changes a number by a multiple of the range only.
proof fn crop_keeps_remainder(x: int)
    ensures
        (signed_crop(x) + 0) % range() == x % range(),
{
    lemma_mod_multiples_vanish(-1, x % range(), range());
}

/// A wrapped sum is the sum, wrapped.
proof fn sum_is_cropped(x: i64, y: i64)
    ensures
        x.wrapping_add(y) == signed_crop(x + y),
{
}

/// Wrapped products can be taken in either grouping.
proof fn product_associates(a: i64, b: i64, c: i64)
    ensures
        a.wrapping_mul(b).wrapping_mul(c) == a.wrapping_mul(b.wrapping_mul(c)),
{
    let left = signed_crop(a * b);
    let right = signed_crop(b * c);
    crop_keeps_remainder(a * b);
    crop_keeps_remainder(b * c);
    lemma_mul_mod_noop_general(left + 0, c + 0, range());
    lemma_mul_mod_noop_general(a * b, c + 0, range());
    lemma_mul_mod_noop_general(a + 0, right + 0, range());
    lemma_mul_mod_noop_general(a + 0, b * c, range());
    assert((a * b) * c == a * (b * c)) by (nonlinear_arith);
    same_remainder_same_crop(left * c, a * right);
}

/// A wrapped product with a wrapped sum is the wrapped sum of the wrapped
/// products.
proof fn product_distributes(a: i64, b: i64, c: i64)
    ensures
        a.wrapping_mul(b.wrapping_add(c)) == a.wrapping_mul(b).wrapping_add(a.wrapping_mul(c)),
{
    let sum = signed_crop(b + c);
    let first = signed_crop(a * b);
    let second = signed_crop(a * c);
    sum_is_cropped(b, c);
    sum_is_cropped(first, second);
    crop_keeps_remainder(b + c);
    crop_keeps_remainder(a * b);
    crop_keeps_remainder(a * c);
    lemma_mul_mod_noop_general(a + 0, sum + 0, range());
    lemma_mul_mod_noop_general(a + 0, b + c, range());
    assert(a * (b + c) == a * b + a * c) by (nonlinear_arith);
    assert((first + second) % range() == (a * b + a * c) % range());
    same_remainder_same_crop(a * sum, first + second);
}

/// The sums, differences and products of `Whole` follow the laws of a
/// commutative ring: wrapping arithmetic is exact up to multiples of the
/// range.
pub proof fn whole_arithmetic_is_exact()
    ensures
        exact_arithmetic::<Whole>(Whole { value: 0 }, Whole { value: 1 }),
{
    reveal(exact_arithmetic);
    assert forall|a: Whole, b: Whole, c: Whole| #[trigger]
        a.mul_spec(b).mul_spec(c) == a.mul_spec(b.mul_spec(c)) by {
        product_associates(a.value, b.value, c.value);
    }
    assert forall|a: Whole, b: Whole, c: Whole| #[trigger]
        a.mul_spec(b.add_spec(c)) == a.mul_spec(b).add_spec(a.mul_spec(c)) by {
        product_distributes(a.value, b.value, c.value);
    }
    assert forall|a: Whole, b: Whole| #[trigger] a.mul_spec(b) == b.mul_spec(a) by {
        assert(a.value * b.value == b.value * a.value) by (nonlinear_arith);
    }
    assert forall|a: Whole| #[trigger] a.mul_spec(Whole { value: 1 }) == a by {
        assert(a.value * 1 == a.value) by (nonlinear_arith);
    }
}

} // verus!
