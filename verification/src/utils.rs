//! Small helpers shared by the rest of the library: the library's only access
//! to the `rand` crate, and the sprite-frame stepper used by the animated
//! entities.

use vstd::prelude::*;
use vstd::slice::slice_index_get;

verus! {

/// Relies on `rand::thread_rng` and `rand::Rng::gen_range` over `0..n`: the
/// sample lies within the range, which must not be empty.
#[verifier::external_body]
pub(crate) fn rand_below(n: usize) -> (r: usize)
    requires
        1 <= n,
    ensures
        r < n,
{
    rand::Rng::gen_range(&mut rand::thread_rng(), 0..n)
}

/// A uniformly chosen element of a non-empty list.
pub fn rand_list_item<T: Copy>(list: &[T]) -> (r: T)
    requires
        list@.len() >= 1,
    ensures
        exists|i: int| 0 <= i < list@.len() && r == list@[i],
{
    let index = rand_below(list.len());
    *slice_index_get(list, index)
}

/// The frame that follows `index` in an animation cycling through
/// `first..=last`.
pub fn advance_frame(index: usize, first: usize, last: usize) -> (r: usize)
    requires
        index < usize::MAX,
    ensures
        r == if index == last { first as int } else { index + 1 },
{
    if index == last {
        first
    } else {
        index + 1
    }
}

} // verus!
