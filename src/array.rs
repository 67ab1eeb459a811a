use vstd::prelude::*;

use crate::tag::{TAG_FLOAT64, TAG_INT};
use crate::value::{int_bits, int_payload, spec_whole_double, whole_double, RawValue};

verus! {

/// The largest index an engine array can hold.
pub const MAX_INDEX: u32 = 0xffff_fffe;

/// The length that a value read from an array's `length` property gives: an
/// inline integer that is not negative, or, for lengths past the inline range,
/// a double holding a whole number that fits in 32 bits. Anything else means
/// the lookup did not yield a length.
pub open spec fn spec_array_length(v: RawValue) -> Option<usize> {
    if v.tag == TAG_INT && int_payload(v.bits) >= 0 {
        Some(int_payload(v.bits) as usize)
    } else if v.tag == TAG_FLOAT64 {
        match spec_whole_double(v.bits) {
            Some(n) => if n <= u32::MAX {
                Some(n as usize)
            } else {
                None
            },
            None => None,
        }
    } else {
        None
    }
}

/// Reads an array length from the value of its `length` property.
pub fn array_length(v: &RawValue) -> (r: Option<usize>)
    ensures
        r == spec_array_length(*v),
        r matches Some(n) ==> n <= u32::MAX,
{
    if v.is_integer() {
        match v.as_integer() {
            Some(i) => {
                if i >= 0 {
                    Some(i as usize)
                } else {
                    None
                }
            },
            None => None,
        }
    } else if v.tag == TAG_FLOAT64 {
        match whole_double(v.bits) {
            Some(n) => {
                if n <= u32::MAX as u64 {
                    Some(n as usize)
                } else {
                    None
                }
            },
            None => None,
        }
    } else {
        None
    }
}

/// The index at which the `i`-th element of a new array is stored, when an
/// array can hold that many.
pub fn element_index(i: usize) -> (r: Option<u32>)
    ensures
        r is Some <==> i <= MAX_INDEX,
        r matches Some(x) ==> x == i,
{
    if i <= MAX_INDEX as usize {
        Some(i as u32)
    } else {
        None
    }
}

/// Whether an engine property assignment reported success (it reports an
/// exception with a negative status).
pub fn set_succeeded(status: i32) -> (r: bool)
    ensures
        r == (status >= 0),
{
    status >= 0
}

/// Forward walk over an array by probing indices `0, 1, 2, ...`; it ends at
/// the first probe that reports an exception, or after the last index.
#[derive(Clone, Copy, Debug, PartialEq, Eq, Structural)]
pub struct Cursor {
    /// The next index to probe, or `None` once the walk is over.
    pub next: Option<u32>,
}

impl Cursor {
    /// How many probes are left at most.
    pub open spec fn remaining(self) -> nat {
        match self.next {
            Some(i) => (u32::MAX - i + 1) as nat,
            None => 0,
        }
    }

    /// A walk from index `0`.
    pub fn new() -> (r: Cursor)
        ensures
            r.next == Some(0u32),
    {
        Cursor { next: Some(0) }
    }

    /// The index to probe next.
    pub fn index(&self) -> (r: Option<u32>)
        ensures
            r == self.next,
    {
        self.next
    }

    /// Takes in the result of probing `self.index()`. Returns whether that
    /// result is the walk's next element; an exception ends the walk.
    pub fn advance(&mut self, probe: &RawValue) -> (r: bool)
        ensures
            old(self).next is None ==> !r && final(self).next is None,
            old(self).next matches Some(i) ==> {
                &&& r == !(probe.tag == crate::tag::TAG_EXCEPTION)
                &&& !r ==> final(self).next is None
                &&& r && i < u32::MAX ==> final(self).next == Some((i + 1) as u32)
                &&& r && i == u32::MAX ==> final(self).next is None
            },
            old(self).next is Some ==> final(self).remaining() < old(self).remaining(),
    {
        match self.next {
            None => false,
            Some(i) => {
                if probe.is_exception() {
                    self.next = None;
                    false
                } else {
                    if i < u32::MAX {
                        self.next = Some(i + 1);
                    } else {
                        self.next = None;
                    }
                    true
                }
            },
        }
    }
}

/// A length stored by the engine as an inline integer reads back as that
/// length, and the `i`-th element of a new array goes to index `i`.
pub proof fn lemma_length_and_index(n: usize, i: usize)
    requires
        n <= i32::MAX,
        i < n,
    ensures
        spec_array_length(RawValue { tag: TAG_INT, bits: int_bits(n as i32) }) == Some(n),
        i <= MAX_INDEX,
{
    crate::value::lemma_integer_round_trip(n as i64);
}

} // verus!
