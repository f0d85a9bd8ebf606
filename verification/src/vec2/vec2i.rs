//! The integer vector `Vec2i`: construction, array conversion, and the
//! dot and cross products.
use crate::arith::wrap;
use vstd::prelude::*;

verus! {

/// A vector of two `i32` components.
///
/// It is a plain value: copies are independent, and two vectors are equal
/// exactly when both components are.
#[derive(Clone, Copy, Debug, PartialEq, Eq, Structural)]
pub struct Vec2i {
    /// The x value of the vector
    pub x: i32,
    /// The y value of the vector
    pub y: i32,
}

impl Vec2i {
    /// The vector with the components `x` and `y`.
    pub open spec fn spec_new(x: i32, y: i32) -> Vec2i {
        Vec2i { x, y }
    }

    /// The vector whose two components are both `val`.
    pub open spec fn spec_splat(val: i32) -> Vec2i {
        Vec2i { x: val, y: val }
    }

    /// The vector whose components are the two items of `arr`, in order.
    pub open spec fn spec_from_arr(arr: [i32; 2]) -> Vec2i {
        Vec2i { x: arr[0], y: arr[1] }
    }

    /// The components as an array: `x` first, then `y`.
    pub open spec fn spec_to_array(&self) -> [i32; 2] {
        [self.x, self.y]
    }

    /// The dot product over the integers, before it is brought into `i32`.
    pub open spec fn dot_exact(self, rhs: Vec2i) -> int {
        self.x * rhs.x + self.y * rhs.y
    }

    /// The cross product over the integers, before it is brought into `i32`.
    pub open spec fn cross_exact(self, rhs: Vec2i) -> int {
        self.x * rhs.y - self.y * rhs.x
    }

    /// The dot product as `dot` returns it.
    pub open spec fn spec_dot(self, rhs: Vec2i) -> i32 {
        wrap(self.dot_exact(rhs))
    }

    /// The cross product as `cross` returns it.
    pub open spec fn spec_cross(self, rhs: Vec2i) -> i32 {
        wrap(self.cross_exact(rhs))
    }

    /// Vector of all zeros
    pub fn zero() -> (v: Vec2i)
        ensures
            v.x == 0,
            v.y == 0,
    {
        Vec2i::splat(0)
    }

    /// Vector of all ones
    pub fn one() -> (v: Vec2i)
        ensures
            v.x == 1,
            v.y == 1,
    {
        Vec2i::splat(1)
    }

    /// Vector of all negative ones
    pub fn neg_one() -> (v: Vec2i)
        ensures
            v.x == -1,
            v.y == -1,
    {
        Vec2i::splat(-1)
    }

    /// The unit vector `(0, 1)`, along positive y
    pub fn up() -> (v: Vec2i)
        ensures
            v.x == 0,
            v.y == 1,
    {
        Vec2i::new(0, 1)
    }

    /// The unit vector `(0, -1)`, along negative y
    pub fn down() -> (v: Vec2i)
        ensures
            v.x == 0,
            v.y == -1,
    {
        Vec2i::new(0, -1)
    }

    /// The unit vector `(1, 0)`, along positive x
    pub fn left() -> (v: Vec2i)
        ensures
            v.x == 1,
            v.y == 0,
    {
        Vec2i::new(1, 0)
    }

    /// The vector `(0, 1)`: the same value as `up()`, not the mirror image
    /// of `left()`.
    pub fn right() -> (v: Vec2i)
        ensures
            v.x == 0,
            v.y == 1,
    {
        Vec2i::new(0, 1)
    }

    /// Creates a new vector
    /// # Arguments
    ///
    /// * `x` - An `i32` that holds the x value of the vector
    ///
    /// * `y` - A `i32` that holds the y value of the vector
    ///
    /// Both are stored as given.
    #[verifier::when_used_as_spec(spec_new)]
    pub fn new(x: i32, y: i32) -> (v: Vec2i)
        ensures
            v.x == x,
            v.y == y,
    {
        Vec2i { x, y }
    }

    /// Creates a Vector with all elements set to `val`
    ///
    /// # Arguments
    ///
    /// * `val` - An `i32` that will hold the `x` and `y` values of the vector
    #[verifier::when_used_as_spec(spec_splat)]
    pub fn splat(val: i32) -> (v: Vec2i)
        ensures
            v == Vec2i::new(val, val),
    {
        Vec2i::new(val, val)
    }

    /// Create a new Vector from an 2 item-length array: item 0 becomes `x`,
    /// item 1 becomes `y`.
    #[verifier::when_used_as_spec(spec_from_arr)]
    pub fn from_arr(arr: [i32; 2]) -> (v: Vec2i)
        ensures
            v == Vec2i::new(arr[0], arr[1]),
    {
        Vec2i::new(arr[0], arr[1])
    }

    /// Create an array from a Vector's `x` and `y` values, in that order.
    #[verifier::when_used_as_spec(spec_to_array)]
    pub fn to_array(&self) -> (arr: [i32; 2])
        ensures
            arr == self.spec_to_array(),
            arr[0] == self.x,
            arr[1] == self.y,
    {
        [self.x, self.y]
    }

    /// Returns the dot product of the `self` and `rhs`:
    /// `self.x * rhs.x + self.y * rhs.y`, computed in `i32` with wraparound.
    ///
    /// # Arguments
    ///
    /// * `self` - The first `Vec2i`
    ///
    /// * `rhs` - The second `Vec2i`
    #[verifier::when_used_as_spec(spec_dot)]
    pub fn dot(self, rhs: Vec2i) -> (d: i32)
        ensures
            d == wrap(self.dot_exact(rhs)),
            i32::MIN <= self.dot_exact(rhs) <= i32::MAX ==> d == self.dot_exact(rhs),
    {
        proof {
            crate::arith::lemma_wrap_add(self.x * rhs.x, self.y * rhs.y);
            if i32::MIN <= self.dot_exact(rhs) <= i32::MAX {
                crate::arith::lemma_wrap_in_range(self.dot_exact(rhs));
            }
        }
        self.x.wrapping_mul(rhs.x).wrapping_add(self.y.wrapping_mul(rhs.y))
    }

    /// Returns the cross product of `self` and `rhs`:
    /// `self.x * rhs.y - self.y * rhs.x`, computed in `i32` with wraparound.
    ///
    /// # Arguments
    ///
    /// * `self` - The first `Vec2i`
    ///
    /// * `rhs` - The Second `Vec2i`
    #[verifier::when_used_as_spec(spec_cross)]
    pub fn cross(self, rhs: Vec2i) -> (c: i32)
        ensures
            c == wrap(self.cross_exact(rhs)),
            i32::MIN <= self.cross_exact(rhs) <= i32::MAX ==> c == self.cross_exact(rhs),
    {
        proof {
            crate::arith::lemma_wrap_sub(self.x * rhs.y, self.y * rhs.x);
            if i32::MIN <= self.cross_exact(rhs) <= i32::MAX {
                crate::arith::lemma_wrap_in_range(self.cross_exact(rhs));
            }
        }
        self.x.wrapping_mul(rhs.y).wrapping_sub(self.y.wrapping_mul(rhs.x))
    }

    /// Sets the x and y value of a vector
    ///
    /// # Arguments
    ///
    /// * `self` - The Vector being set
    pub fn set(&mut self, new_x: i32, new_y: i32)
        ensures
            *final(self) == Vec2i::new(new_x, new_y),
    {
        self.x = new_x;
        self.y = new_y;
    }
}

impl Default for Vec2i {
    /// The zero vector.
    fn default() -> (v: Vec2i)
        ensures
            v.x == 0,
            v.y == 0,
    {
        Vec2i::splat(0)
    }
}

} // verus!
