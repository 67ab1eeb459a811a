use vstd::prelude::*;

use crate::tag::spec_has_ref_count;
use crate::value::RawValue;

verus! {

/// What giving up one share of a value does to its heap block.
#[derive(Clone, Copy, Debug, PartialEq, Eq, Structural)]
pub enum Release {
    /// A scalar value: nothing in the engine changes.
    Untouched,
    /// The block's count becomes the given one and the block stays.
    Kept(i32),
    /// The block's count becomes the given one, which is not positive, and
    /// the block goes back to the engine's own free routine.
    Freed(i32),
}

/// The count a counted block has after one more share of `v` is taken.
pub open spec fn spec_dup(v: RawValue, count: i32) -> i32 {
    if spec_has_ref_count(v.tag) {
        (count + 1) as i32
    } else {
        count
    }
}

/// What happens when one share of `v` is given up while its block's count is
/// `count`.
pub open spec fn spec_release(v: RawValue, count: i32) -> Release {
    if !spec_has_ref_count(v.tag) {
        Release::Untouched
    } else if count - 1 <= 0 {
        Release::Freed((count - 1) as i32)
    } else {
        Release::Kept((count - 1) as i32)
    }
}

/// Whether a value's block can still be used once this step is done.
pub open spec fn spec_alive_after(step: Release) -> bool {
    !(step is Freed)
}

/// The count to store when a value is duplicated (a clone, or a reference
/// handed to the engine). Scalars leave it as it is.
pub fn dup_count(v: &RawValue, count: i32) -> (r: i32)
    requires
        spec_has_ref_count(v.tag) ==> count < i32::MAX,
    ensures
        r == spec_dup(*v, count),
{
    if crate::tag::has_ref_count(v.tag) {
        count + 1
    } else {
        count
    }
}

/// The step to take when a value guard is dropped.
pub fn release_step(v: &RawValue, count: i32) -> (r: Release)
    requires
        spec_has_ref_count(v.tag) ==> count > i32::MIN,
    ensures
        r == spec_release(*v, count),
{
    if !crate::tag::has_ref_count(v.tag) {
        Release::Untouched
    } else if count - 1 <= 0 {
        Release::Freed(count - 1)
    } else {
        Release::Kept(count - 1)
    }
}

/// Cloning a value and then dropping the original leaves the block alive,
/// with the count it had before the clone: the clone's share keeps it. When
/// the clone goes too, the block is freed exactly when the original was its
/// only share.
pub proof fn lemma_clone_then_drop_original(v: RawValue, count: i32)
    requires
        1 <= count < i32::MAX,
    ensures
        spec_has_ref_count(v.tag) ==> spec_release(v, spec_dup(v, count)) == Release::Kept(count),
        spec_alive_after(spec_release(v, spec_dup(v, count))),
        spec_has_ref_count(v.tag) ==> (spec_release(v, count) is Freed <==> count == 1),
{
}

} // verus!
