//! Work that is done in the background: a timer, or the fetch of a block.

use vstd::prelude::*;

verus! {

/// A slot for at most one piece of background work of kind `T`.
///
/// Whoever runs the work asks [`Background::start`] what to begin, and stops
/// what it runs when the slot is found idle, or when another order takes the
/// place of the work.
#[derive(Debug)]
pub enum Background<T> {
    /// No work is wanted.
    Idle,
    /// The work is wanted and has not begun.
    Ordered(T),
    /// The work has begun.
    Running(T),
}

impl<T: Copy> Background<T> {
    /// The work that is wanted, begun or not.
    pub open spec fn wanted(self) -> Option<T> {
        match self {
            Background::Idle => None,
            Background::Ordered(work) => Some(work),
            Background::Running(work) => Some(work),
        }
    }

    /// The work that is to be begun.
    pub open spec fn handed_out(self) -> Option<T> {
        match self {
            Background::Ordered(work) => Some(work),
            _ => None,
        }
    }

    /// The slot once ordered work has begun.
    pub open spec fn begun(self) -> Background<T> {
        match self {
            Background::Ordered(work) => Background::Running(work),
            other => other,
        }
    }

    /// Whether no work is wanted.
    pub fn is_idle(&self) -> (idle: bool)
        ensures
            idle == (*self is Idle),
            idle == (self.wanted() is None),
    {
        matches!(*self, Background::Idle)
    }

    /// The work that is wanted, begun or not.
    pub fn work(&self) -> (work: Option<T>)
        ensures
            work == self.wanted(),
    {
        match *self {
            Background::Idle => None,
            Background::Ordered(work) => Some(work),
            Background::Running(work) => Some(work),
        }
    }

    /// Begins ordered work: hands it out once, and from then on the slot
    /// counts it as running.
    pub fn start(&mut self) -> (work: Option<T>)
        ensures
            work == old(self).handed_out(),
            *final(self) == old(self).begun(),
    {
        match *self {
            Background::Ordered(work) => {
                *self = Background::Running(work);
                Some(work)
            },
            _ => None,
        }
    }
}

} // verus!
