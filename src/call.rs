use vstd::prelude::*;

verus! {

/// A host count as the engine's `int`, when it fits.
pub fn c_int(n: usize) -> (r: Option<i32>)
    ensures
        r is Some <==> n <= i32::MAX,
        r matches Some(x) ==> x == n,
{
    if n <= i32::MAX as usize {
        Some(n as i32)
    } else {
        None
    }
}

/// The number of arguments that a native call received; the engine never
/// passes a negative count, and one would mean none.
pub fn argument_count(argc: i32) -> (r: usize)
    ensures
        argc >= 0 ==> r == argc,
        argc < 0 ==> r == 0,
{
    if argc >= 0 {
        argc as usize
    } else {
        0
    }
}

} // verus!
