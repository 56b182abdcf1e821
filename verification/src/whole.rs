//! Whole numbers that wrap around: a scalar for scenes on a grid, on which
//! every operator is defined for all operands.

use crate::vector::well_behaved;
use core::cmp::Ordering;
use core::ops::{Add, Div, Mul, Rem, Sub};
use vstd::prelude::*;
use vstd::std_specs::cmp::{PartialEqSpecImpl, PartialOrdSpecImpl};
use vstd::std_specs::ops::{
    AddSpecImpl,
    DivSpec,
    DivSpecImpl,
    MulSpecImpl,
    RemSpec,
    RemSpecImpl,
    SubSpecImpl,
};

verus! {

/// A 64-bit whole number. Sums, differences and products wrap around at the
/// ends of the range. A quotient is cut toward zero; a division by zero gives
/// zero, and so does its remainder; the least number divided by minus one
/// wraps around to itself, with remainder zero.
#[derive(Clone, Copy, Debug)]
pub struct Whole {
    pub value: i64,
}

impl PartialEq for Whole {
    fn eq(&self, other: &Whole) -> (same: bool) {
        self.value == other.value
    }
}

impl PartialEqSpecImpl for Whole {
    open spec fn obeys_eq_spec() -> bool {
        true
    }

    open spec fn eq_spec(&self, other: &Whole) -> bool {
        self.value == other.value
    }
}

impl PartialOrd for Whole {
    fn partial_cmp(&self, other: &Whole) -> (order: Option<Ordering>) {
        if self.value < other.value {
            Some(Ordering::Less)
        } else if self.value > other.value {
            Some(Ordering::Greater)
        } else {
            Some(Ordering::Equal)
        }
    }
}

impl PartialOrdSpecImpl for Whole {
    open spec fn obeys_partial_cmp_spec() -> bool {
        true
    }

    open spec fn partial_cmp_spec(&self, other: &Whole) -> Option<Ordering> {
        if self.value < other.value {
            Some(Ordering::Less)
        } else if self.value > other.value {
            Some(Ordering::Greater)
        } else {
            Some(Ordering::Equal)
        }
    }
}

impl Add for Whole {
    type Output = Whole;

    fn add(self, rhs: Whole) -> (sum: Whole) {
        Whole { value: self.value.wrapping_add(rhs.value) }
    }
}

impl AddSpecImpl for Whole {
    open spec fn obeys_add_spec() -> bool {
        true
    }

    open spec fn add_req(self, rhs: Whole) -> bool {
        true
    }

    open spec fn add_spec(self, rhs: Whole) -> Whole {
        Whole { value: self.value.wrapping_add(rhs.value) }
    }
}

impl Sub for Whole {
    type Output = Whole;

    fn sub(self, rhs: Whole) -> (difference: Whole) {
        Whole { value: self.value.wrapping_sub(rhs.value) }
    }
}

impl SubSpecImpl for Whole {
    open spec fn obeys_sub_spec() -> bool {
        true
    }

    open spec fn sub_req(self, rhs: Whole) -> bool {
        true
    }

    open spec fn sub_spec(self, rhs: Whole) -> Whole {
        Whole { value: self.value.wrapping_sub(rhs.value) }
    }
}

impl Mul for Whole {
    type Output = Whole;

    fn mul(self, rhs: Whole) -> (product: Whole) {
        Whole { value: self.value.wrapping_mul(rhs.value) }
    }
}

impl MulSpecImpl for Whole {
    open spec fn obeys_mul_spec() -> bool {
        true
    }

    open spec fn mul_req(self, rhs: Whole) -> bool {
        true
    }

    open spec fn mul_spec(self, rhs: Whole) -> Whole {
        Whole { value: self.value.wrapping_mul(rhs.value) }
    }
}

impl Div for Whole {
    type Output = Whole;

    fn div(self, rhs: Whole) -> (quotient: Whole) {
        if rhs.value == 0 {
            Whole { value: 0 }
        } else if self.value == i64::MIN && rhs.value == -1 {
            Whole { value: i64::MIN }
        } else {
            Whole { value: self.value / rhs.value }
        }
    }
}

impl DivSpecImpl for Whole {
    open spec fn obeys_div_spec() -> bool {
        true
    }

    open spec fn div_req(self, rhs: Whole) -> bool {
        true
    }

    open spec fn div_spec(self, rhs: Whole) -> Whole {
        if rhs.value == 0 {
            Whole { value: 0 }
        } else if self.value == i64::MIN && rhs.value == -1 {
            Whole { value: i64::MIN }
        } else {
            Whole { value: DivSpec::div_spec(self.value, rhs.value) }
        }
    }
}

impl Rem for Whole {
    type Output = Whole;

    fn rem(self, rhs: Whole) -> (remainder: Whole) {
        if rhs.value == 0 || (self.value == i64::MIN && rhs.value == -1) {
            Whole { value: 0 }
        } else {
            Whole { value: self.value % rhs.value }
        }
    }
}

impl RemSpecImpl for Whole {
    open spec fn obeys_rem_spec() -> bool {
        true
    }

    open spec fn rem_req(self, rhs: Whole) -> bool {
        true
    }

    open spec fn rem_spec(self, rhs: Whole) -> Whole {
        if rhs.value == 0 || (self.value == i64::MIN && rhs.value == -1) {
            Whole { value: 0 }
        } else {
            Whole { value: RemSpec::rem_spec(self.value, rhs.value) }
        }
    }
}

/// The operators of `Whole` are defined on all operands, and each returns
/// the value stated for it, so every function of the library can be called
/// on whole numbers.
pub proof fn whole_is_well_behaved()
    ensures
        well_behaved::<Whole>(),
{
}

} // verus!
