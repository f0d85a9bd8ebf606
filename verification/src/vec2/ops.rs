//! The arithmetic operators of `Vec2i`.
//!
//! Every operator works on the two components separately. Sums, differences
//! and products wrap around in two's complement; quotients round toward zero
//! and ask for a non-zero divisor. Each compound assignment leaves in its
//! left operand exactly what the plain operator returns.
use crate::arith::{trunc_div, wrap, wrapping_quotient};
use crate::vec2::vec2i::Vec2i;
use core::ops::{Add, AddAssign, Div, DivAssign, Mul, MulAssign, Sub, SubAssign};
use vstd::prelude::*;
use vstd::std_specs::ops::{AddSpec, DivSpec, MulSpec, SubSpec};

verus! {

impl vstd::std_specs::ops::AddSpecImpl<Vec2i> for Vec2i {
    open spec fn obeys_add_spec() -> bool {
        true
    }

    open spec fn add_req(self, rhs: Vec2i) -> bool {
        true
    }

    open spec fn add_spec(self, rhs: Vec2i) -> Vec2i {
        Vec2i { x: wrap(self.x + rhs.x), y: wrap(self.y + rhs.y) }
    }
}

/// Addition of vectors
impl Add<Vec2i> for Vec2i {
    type Output = Vec2i;

    fn add(self, rhs: Vec2i) -> (sum: Vec2i)
        ensures
            sum.x == wrap(self.x + rhs.x),
            sum.y == wrap(self.y + rhs.y),
    {
        Vec2i::new(self.x.wrapping_add(rhs.x), self.y.wrapping_add(rhs.y))
    }
}

/// Addition Assignments of vectors
impl AddAssign<Vec2i> for Vec2i {
    fn add_assign(&mut self, rhs: Vec2i)
        ensures
            *final(self) == old(self).add_spec(rhs),
    {
        self.x = self.x.wrapping_add(rhs.x);
        self.y = self.y.wrapping_add(rhs.y);
    }
}

impl vstd::std_specs::ops::SubSpecImpl<Vec2i> for Vec2i {
    open spec fn obeys_sub_spec() -> bool {
        true
    }

    open spec fn sub_req(self, rhs: Vec2i) -> bool {
        true
    }

    open spec fn sub_spec(self, rhs: Vec2i) -> Vec2i {
        Vec2i { x: wrap(self.x - rhs.x), y: wrap(self.y - rhs.y) }
    }
}

/// Subtraction of vectors
impl Sub<Vec2i> for Vec2i {
    type Output = Vec2i;

    fn sub(self, rhs: Vec2i) -> (difference: Vec2i)
        ensures
            difference.x == wrap(self.x - rhs.x),
            difference.y == wrap(self.y - rhs.y),
    {
        Vec2i::new(self.x.wrapping_sub(rhs.x), self.y.wrapping_sub(rhs.y))
    }
}

/// Subtraction Assignments of vectors
impl SubAssign<Vec2i> for Vec2i {
    fn sub_assign(&mut self, rhs: Vec2i)
        ensures
            *final(self) == old(self).sub_spec(rhs),
    {
        self.x = self.x.wrapping_sub(rhs.x);
        self.y = self.y.wrapping_sub(rhs.y);
    }
}

impl vstd::std_specs::ops::MulSpecImpl<Vec2i> for Vec2i {
    open spec fn obeys_mul_spec() -> bool {
        true
    }

    open spec fn mul_req(self, rhs: Vec2i) -> bool {
        true
    }

    open spec fn mul_spec(self, rhs: Vec2i) -> Vec2i {
        Vec2i { x: wrap(self.x * rhs.x), y: wrap(self.y * rhs.y) }
    }
}

/// Multiplication of vectors
impl Mul<Vec2i> for Vec2i {
    type Output = Vec2i;

    fn mul(self, rhs: Vec2i) -> (product: Vec2i)
        ensures
            product.x == wrap(self.x * rhs.x),
            product.y == wrap(self.y * rhs.y),
    {
        Vec2i::new(self.x.wrapping_mul(rhs.x), self.y.wrapping_mul(rhs.y))
    }
}

impl vstd::std_specs::ops::MulSpecImpl<i32> for Vec2i {
    open spec fn obeys_mul_spec() -> bool {
        true
    }

    open spec fn mul_req(self, rhs: i32) -> bool {
        true
    }

    open spec fn mul_spec(self, rhs: i32) -> Vec2i {
        Vec2i { x: wrap(self.x * rhs), y: wrap(self.y * rhs) }
    }
}

/// Multiplication of a vector by an `i32`
impl Mul<i32> for Vec2i {
    type Output = Vec2i;

    fn mul(self, rhs: i32) -> (product: Vec2i)
        ensures
            product.x == wrap(self.x * rhs),
            product.y == wrap(self.y * rhs),
    {
        Vec2i::new(self.x.wrapping_mul(rhs), self.y.wrapping_mul(rhs))
    }
}

/// Multiplication assignment of Vectors
impl MulAssign<Vec2i> for Vec2i {
    fn mul_assign(&mut self, rhs: Vec2i)
        ensures
            *final(self) == old(self).mul_spec(rhs),
    {
        self.x = self.x.wrapping_mul(rhs.x);
        self.y = self.y.wrapping_mul(rhs.y);
    }
}

/// Multiplication assignment of a vector by an `i32`
impl MulAssign<i32> for Vec2i {
    fn mul_assign(&mut self, rhs: i32)
        ensures
            *final(self) == old(self).mul_spec(rhs),
    {
        self.x = self.x.wrapping_mul(rhs);
        self.y = self.y.wrapping_mul(rhs);
    }
}

impl vstd::std_specs::ops::DivSpecImpl<Vec2i> for Vec2i {
    open spec fn obeys_div_spec() -> bool {
        true
    }

    open spec fn div_req(self, rhs: Vec2i) -> bool {
        rhs.x != 0 && rhs.y != 0
    }

    open spec fn div_spec(self, rhs: Vec2i) -> Vec2i {
        Vec2i {
            x: wrap(trunc_div(self.x as int, rhs.x as int)),
            y: wrap(trunc_div(self.y as int, rhs.y as int)),
        }
    }
}

/// Division of a vector
impl Div<Vec2i> for Vec2i {
    type Output = Vec2i;

    fn div(self, rhs: Vec2i) -> (quotient: Vec2i)
        ensures
            quotient.x == wrap(trunc_div(self.x as int, rhs.x as int)),
            quotient.y == wrap(trunc_div(self.y as int, rhs.y as int)),
    {
        Vec2i::new(wrapping_quotient(self.x, rhs.x), wrapping_quotient(self.y, rhs.y))
    }
}

impl vstd::std_specs::ops::DivSpecImpl<i32> for Vec2i {
    open spec fn obeys_div_spec() -> bool {
        true
    }

    open spec fn div_req(self, rhs: i32) -> bool {
        rhs != 0
    }

    open spec fn div_spec(self, rhs: i32) -> Vec2i {
        Vec2i {
            x: wrap(trunc_div(self.x as int, rhs as int)),
            y: wrap(trunc_div(self.y as int, rhs as int)),
        }
    }
}

/// Division of a vector by an `i32`
impl Div<i32> for Vec2i {
    type Output = Vec2i;

    fn div(self, rhs: i32) -> (quotient: Vec2i)
        ensures
            quotient.x == wrap(trunc_div(self.x as int, rhs as int)),
            quotient.y == wrap(trunc_div(self.y as int, rhs as int)),
    {
        Vec2i::new(wrapping_quotient(self.x, rhs), wrapping_quotient(self.y, rhs))
    }
}

/// Division assignment of vectors
impl DivAssign<Vec2i> for Vec2i {
    fn div_assign(&mut self, rhs: Vec2i)
        requires
            rhs.x != 0,
            rhs.y != 0,
        ensures
            *final(self) == old(self).div_spec(rhs),
    {
        self.x = wrapping_quotient(self.x, rhs.x);
        self.y = wrapping_quotient(self.y, rhs.y);
    }
}

/// Division assignment of a vector by an `i32`
impl DivAssign<i32> for Vec2i {
    fn div_assign(&mut self, rhs: i32)
        requires
            rhs != 0,
        ensures
            *final(self) == old(self).div_spec(rhs),
    {
        self.x = wrapping_quotient(self.x, rhs);
        self.y = wrapping_quotient(self.y, rhs);
    }
}

} // verus!
