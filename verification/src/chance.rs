//! A record of the random draws a computation made. Only `Draws::draw`
//! adds to it, and it adds exactly what the random source gave, so a result
//! stated over the record is stated over the draws themselves.

use vstd::prelude::*;
use crate::kernel::random_in;

verus! {

/// The draws made so far: for each, its range `low..=high` and the value
/// drawn.
pub struct Draws {
    log: Ghost<Seq<(usize, usize, usize)>>,
}

impl Draws {
    /// The draws made so far, oldest first, as `(low, high, value)`.
    pub closed spec fn log(&self) -> Seq<(usize, usize, usize)> {
        self.log@
    }

    /// A record with no draws.
    pub fn new() -> (r: Draws)
        ensures
            r.log() == Seq::<(usize, usize, usize)>::empty(),
    {
        Draws { log: Ghost(Seq::empty()) }
    }

    /// Draws a random number between `low` and `high`, both included, and
    /// records it.
    pub fn draw(&mut self, low: usize, high: usize) -> (r: usize)
        requires
            low <= high,
        ensures
            low <= r <= high,
            final(self).log() == old(self).log().push((low, high, r)),
    {
        let r = random_in(low, high);
        self.log = Ghost(self.log@.push((low, high, r)));
        r
    }
}

/// The values of a list of draws.
pub open spec fn drawn_values(log: Seq<(usize, usize, usize)>) -> Seq<usize> {
    log.map_values(|t: (usize, usize, usize)| t.2)
}

} // verus!
