//! Numbering of the calls made to the platform's kernel services.
use vstd::prelude::*;

verus! {

/// The number of a call to the kernel services (allocation, free, wait).
/// Each such call is handed the number it has in the order in which the
/// driver makes them; the number exists for the proofs only, so that the
/// contracts can say which call came in which place and tell two calls
/// with the same arguments apart.
#[derive(Clone, Copy)]
pub struct CallNo {
    pub number: Ghost<int>,
}

/// Call number `k`.
pub open spec fn call_no(k: int) -> CallNo {
    CallNo { number: Ghost(k) }
}

impl CallNo {
    /// The number of this call.
    pub open spec fn count(&self) -> int {
        self.number@
    }

    /// The first call.
    pub fn first() -> (c: Self)
        ensures
            c == call_no(0),
    {
        CallNo { number: Ghost(0) }
    }

    /// The call after this one.
    pub fn next(&self) -> (c: Self)
        ensures
            c == call_no(self.count() + 1),
    {
        CallNo { number: Ghost(self.number@ + 1) }
    }

    /// Move on to the next call.
    pub fn advance(&mut self)
        ensures
            *final(self) == call_no(old(self).count() + 1),
    {
        self.number = Ghost(self.number@ + 1);
    }
}

} // verus!
