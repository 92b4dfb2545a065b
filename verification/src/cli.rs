//! The configuration that the command line yields.

use crate::audio::Ctrl;
use crate::sound::clamp;
use crate::text::name_of;
use vstd::prelude::*;

verus! {

/// The step of a change of volume where the command line names none.
pub const DEFAULT_STEP: u8 = 5;

/// What the command line asked for.
#[derive(Debug, Clone, Copy, PartialEq, Eq)]
pub struct Cli {
    /// Act once and leave, rather than go on.
    pub once: bool,
    /// The percentage by which a step changes the volume.
    pub step_size: Option<u8>,
}

impl Default for Cli {
    fn default() -> (r: Cli)
        ensures
            r == (Cli { once: true, step_size: None }),
    {
        Cli { once: true, step_size: None }
    }
}

impl Cli {
    /// The step that the controller works with: the one asked for,
    /// brought into the range 0 to 100, or the default step.
    pub open spec fn step(&self) -> u8 {
        match self.step_size {
            Some(step) => clamp(step as int) as u8,
            None => DEFAULT_STEP,
        }
    }

    /// The configuration of a controller that acts on `target_sink`.
    pub fn ctrl(&self, target_sink: Option<String>) -> (r: Ctrl)
        ensures
            r.target() == name_of(target_sink),
            r.step() == self.step(),
    {
        let step = match self.step_size {
            Some(step) => step,
            None => DEFAULT_STEP,
        };
        Ctrl::new(target_sink, step)
    }
}

} // verus!
