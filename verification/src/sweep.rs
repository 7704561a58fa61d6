//! What a kinematic sweep reports, and what the kernel asks of loose bodies.
//!
//! The kernel does not move anything itself. Each step it names the
//! displacement it wants; a sweep service tries it and reports what came of
//! it. The report is read on the step after.

use vstd::prelude::*;
use crate::fixed::Vec2;

verus! {

/// One body that the character touched during a sweep.
#[derive(Clone, Copy, PartialEq, Eq, Debug, Structural)]
pub struct Contact {
    /// The body that was touched.
    pub entity: u64,
    /// The contact normal, a fixed-point unit vector.
    pub normal: Vec2,
}

/// The outcome of one sweep.
#[derive(Debug)]
pub struct SweepResult {
    /// How far the character did move.
    pub achieved_displacement: Vec2,
    /// How far the character had asked to move.
    pub desired_displacement: Vec2,
    /// Whether the character came to stand on something.
    pub grounded: bool,
    /// The bodies touched on the way.
    pub contacts: Vec<Contact>,
}

/// A push to give to a loose body.
#[derive(Clone, Copy, PartialEq, Eq, Debug, Structural)]
pub struct Impulse {
    /// The body to push.
    pub entity: u64,
    /// The push, in fixed-point units.
    pub impulse: Vec2,
}

impl Clone for SweepResult {
    /// A copy of the report.
    fn clone(&self) -> (copy: SweepResult)
        ensures
            copy.achieved_displacement == self.achieved_displacement,
            copy.desired_displacement == self.desired_displacement,
            copy.grounded == self.grounded,
            copy.contacts@ == self.contacts@,
    {
        let contacts: Vec<Contact> = self.contacts.clone();
        assert(contacts@ =~= self.contacts@);
        SweepResult {
            achieved_displacement: self.achieved_displacement,
            desired_displacement: self.desired_displacement,
            grounded: self.grounded,
            contacts,
        }
    }
}

impl SweepResult {
    /// The report of a character that hangs in the air, has not moved and has
    /// touched nothing: what stands in for a report before the first sweep.
    pub fn airborne() -> (report: SweepResult)
        ensures
            report.achieved_displacement == (Vec2 { x: 0, y: 0 }),
            report.desired_displacement == (Vec2 { x: 0, y: 0 }),
            !report.grounded,
            report.contacts@.len() == 0,
    {
        SweepResult {
            achieved_displacement: Vec2 { x: 0, y: 0 },
            desired_displacement: Vec2 { x: 0, y: 0 },
            grounded: false,
            contacts: Vec::new(),
        }
    }
}

} // verus!
