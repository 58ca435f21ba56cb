use vstd::prelude::*;

verus! {

/// The material a hit record carries before any surface has been hit: it
/// never scatters and emits nothing, so an unset material stays inert.
pub struct NoHit {
    a: u32,
}

impl NoHit {
    pub fn new() -> NoHit {
        NoHit { a: 0 }
    }

    /// Whether a ray that meets this material continues: never.
    pub fn scatters(&self) -> (r: bool)
        ensures
            !r,
    {
        false
    }
}

} // verus!
