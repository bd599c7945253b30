use vstd::layout::size_of;
use vstd::prelude::*;

verus! {

/// The length in bytes of a buffer of `item_count` items of type `Item`,
/// laid out one after another: `None` when that length exceeds what a
/// 64-bit device size can hold.
pub fn buffer_len<Item>(item_count: usize) -> (r: Option<u64>)
    ensures
        r == (if item_count * size_of::<Item>() <= u64::MAX {
            Some((item_count * size_of::<Item>()) as u64)
        } else {
            None::<u64>
        }),
{
    let stride = core::mem::size_of::<Item>() as u64;
    (item_count as u64).checked_mul(stride)
}

} // verus!
