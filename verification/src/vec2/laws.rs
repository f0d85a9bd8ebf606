//! Laws that relate the constructors and conversions of `Vec2i`.
use crate::vec2::vec2i::Vec2i;
use vstd::prelude::*;

verus! {

/// Turning a vector made from `x` and `y` into an array and back gives the
/// same vector.
pub proof fn lemma_array_round_trip(x: i32, y: i32)
    ensures
        Vec2i::from_arr(Vec2i::new(x, y).to_array()) == Vec2i::new(x, y),
{
}

/// Turning any vector into an array and back gives the same vector.
pub proof fn lemma_from_arr_to_array(v: Vec2i)
    ensures
        Vec2i::from_arr(v.to_array()) == v,
{
}

/// Turning any array into a vector and back gives the same array.
pub proof fn lemma_to_array_from_arr(arr: [i32; 2])
    ensures
        Vec2i::from_arr(arr).to_array() == arr,
{
    assert(Vec2i::from_arr(arr).to_array() =~= arr);
}

/// A splatted vector is the vector made from the same value twice.
pub proof fn lemma_splat_is_new(val: i32)
    ensures
        Vec2i::splat(val) == Vec2i::new(val, val),
{
}

} // verus!
