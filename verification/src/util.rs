//! Small helpers shared by the host boundary: buffer allocation and the
//! boolean convention of the host's byte-sized boolean type.

use vstd::prelude::*;

verus! {

/// A vector of `capacity` copies of `initial_val`.
pub fn new_buffer_vec<T: Copy>(capacity: usize, initial_val: T) -> (v: Vec<T>)
    ensures
        v@.len() == capacity,
        forall|i: int| 0 <= i < capacity ==> v@[i] == initial_val,
{
    let mut vec: Vec<T> = Vec::with_capacity(capacity);
    let mut n: usize = 0;
    while n < capacity
        invariant
            n <= capacity,
            vec@.len() == n,
            forall|i: int| 0 <= i < n ==> vec@[i] == initial_val,
        decreases capacity - n,
    {
        vec.push(initial_val);
        n = n + 1;
    }
    vec
}

/// Encodes a `bool` as the host's byte-sized boolean: 1 for true, 0 for false.
pub fn bool_to_jboolean(val: bool) -> (r: u8)
    ensures
        r == (if val {
            1u8
        } else {
            0u8
        }),
{
    if val {
        1
    } else {
        0
    }
}

/// Decodes the host's byte-sized boolean: any nonzero byte counts as true.
pub fn jboolean_to_bool(val: u8) -> (r: bool)
    ensures
        r == (val != 0),
{
    if val == 0 {
        false
    } else {
        true
    }
}

} // verus!
