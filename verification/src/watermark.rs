//! The release watermark: the position at or below which events may be
//! discarded.
//!
//! Releasing is a one-way advance.  Asking to release a position at or below
//! an earlier release is accepted and does nothing: the effective watermark
//! never moves backward.

use vstd::prelude::*;

use crate::timestamp::Timestamp;

verus! {

/// The effective release position of one stream: `None` until the first
/// release, then the highest position ever released.
#[derive(Clone, Copy, Debug, PartialEq, Eq, Structural)]
pub struct Watermark {
    pub released: Option<Timestamp>,
}

/// The watermark after asking to release up to `up_to`: it advances to
/// `up_to` when that is ahead of the current position, and stays where it is
/// otherwise.
pub open spec fn spec_advance(w: Watermark, up_to: Timestamp) -> Watermark {
    match w.released {
        None => Watermark { released: Some(up_to) },
        Some(p) => if up_to.value > p.value {
            Watermark { released: Some(up_to) }
        } else {
            w
        },
    }
}

impl Watermark {
    /// A stream on which nothing has been released yet.
    pub fn new() -> (r: Watermark)
        ensures
            r == (Watermark { released: None::<Timestamp> }),
    {
        Watermark { released: None }
    }

    /// Record a release up to `up_to`.  The watermark only ever moves
    /// forward: a request at or below the current position is accepted
    /// idempotently and leaves it unchanged.
    pub fn advance(&mut self, up_to: Timestamp)
        ensures
            *final(self) == spec_advance(*old(self), up_to),
            final(self).released is Some,
            final(self).released.unwrap().value >= up_to.value,
            old(self).released matches Some(p) ==> final(self).released.unwrap().value >= p.value,
    {
        match self.released {
            None => {
                self.released = Some(up_to);
            },
            Some(p) => {
                if up_to.value > p.value {
                    self.released = Some(up_to);
                }
            },
        }
    }

    /// The current effective release position.
    pub fn released(&self) -> (r: Option<Timestamp>)
        ensures
            r == self.released,
    {
        self.released
    }
}

/// Releasing twice with a second position no further than the first is
/// idempotent: the second request never moves the effective watermark, in
/// particular never backward.
pub proof fn lemma_release_monotone(w: Watermark, up_to1: Timestamp, up_to2: Timestamp)
    requires
        up_to2.value <= up_to1.value,
    ensures
        spec_advance(spec_advance(w, up_to1), up_to2) == spec_advance(w, up_to1),
{
}

} // verus!
