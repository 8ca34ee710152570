use vstd::prelude::*;

verus! {

/// Exponent of the terminal cashflow of a two-stage growth model whose
/// high-growth phase lasts `periods` periods: `periods + 1`, where that
/// fits an `i32` (as every exponent of the finite-horizon sum then does).
pub fn terminal_exponent(periods: u32) -> (r: Option<i32>)
    ensures
        r == if periods < i32::MAX {
            Some((periods + 1) as i32)
        } else {
            None::<i32>
        },
{
    if periods < i32::MAX as u32 {
        Some((periods + 1) as i32)
    } else {
        None
    }
}

} // verus!
