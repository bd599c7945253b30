use vstd::layout::size_of;
use vstd::prelude::*;

verus! {

/// Size in bytes of one push constant: push constants are 32-bit words.
pub const PUSH_CONSTANT_BYTES: usize = 4;

/// The number of push constants that a value of type `T` occupies.
///
/// A type whose size is not a whole number of 32-bit words cannot be
/// uploaded as push constants, so such a `T` is not admitted.
pub fn push_constant_size<T>() -> (r: usize)
    requires
        size_of::<T>() % (PUSH_CONSTANT_BYTES as nat) == 0,
    ensures
        r as nat == size_of::<T>() / (PUSH_CONSTANT_BYTES as nat),
        r as nat * (PUSH_CONSTANT_BYTES as nat) == size_of::<T>(),
{
    let type_size = core::mem::size_of::<T>();
    type_size / PUSH_CONSTANT_BYTES
}

} // verus!
