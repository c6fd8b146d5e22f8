use vstd::prelude::*;

verus! {

/// The compatibility coprocessor, kept for a possible backward-compatible
/// mode; this core never switches to it.
#[derive(Clone, Copy, Debug, PartialEq, Eq, Structural)]
pub struct LR35902 {}

impl LR35902 {
    pub fn new() -> (r: LR35902)
        ensures
            r == (LR35902 {}),
    {
        LR35902 {}
    }
}

} // verus!
