use vstd::prelude::*;
use vstd::arithmetic::div_mod::{lemma_mod_bound, lemma_mod_decreases};

verus! {

/// The smallest multiple of `align` that is at least `x`.
pub open spec fn align_up(x: int, align: int) -> int
    recommends
        align > 0,
{
    if x % align == 0 {
        x
    } else {
        x - x % align + align
    }
}

/// The largest multiple of `align` that is at most `x`.
pub open spec fn align_down(x: int, align: int) -> int
    recommends
        align > 0,
{
    x - x % align
}

/// Rounds `x` up to a multiple of `align`; `None` where that multiple exceeds `usize::MAX`.
pub fn checked_align_up(x: usize, align: usize) -> (r: Option<usize>)
    requires
        align > 0,
    ensures
        match r {
            Some(v) => v == align_up(x as int, align as int),
            None => align_up(x as int, align as int) > usize::MAX,
        },
{
    let rem = x % align;
    proof {
        lemma_mod_bound(x as int, align as int);
    }
    if rem == 0 {
        Some(x)
    } else {
        let pad = align - rem;
        if x > usize::MAX - pad {
            None
        } else {
            Some(x + pad)
        }
    }
}

/// Rounds `x` down to a multiple of `align`.
pub fn round_down(x: usize, align: usize) -> (r: usize)
    requires
        align > 0,
    ensures
        r == align_down(x as int, align as int),
{
    proof {
        lemma_mod_decreases(x as nat, align as nat);
    }
    x - x % align
}

} // verus!
