//! The order of a run.
//!
//! A run goes through its stages once, from first to last. A stage that
//! fails is reported on the error channel and the run goes on with the next
//! stage all the same: no failure ends a run or sends it back.

use vstd::prelude::*;

verus! {

/// A stage of a run.
#[derive(Clone, Copy, Debug, PartialEq, Eq, Structural)]
pub enum Stage {
    /// Make sure the directory for the CSV file is there.
    EnsureDirectory,
    /// Fetch the CSV file.
    Fetch,
    /// Load the CSV file into the table.
    Load,
    /// Insert the sample row.
    Create,
    /// Read the sample row.
    Read,
    /// Update the sample row.
    Update,
    /// Delete the sample row.
    Delete,
    /// Nothing is left to do.
    Exit,
}

/// Where the report of a stage goes.
#[derive(Clone, Copy, Debug, PartialEq, Eq, Structural)]
pub enum Channel {
    /// Ordinary output.
    Standard,
    /// The channel for errors.
    Error,
}

impl Stage {
    /// The place of the stage in a run, counted from zero.
    pub open spec fn position(self) -> nat {
        match self {
            Stage::EnsureDirectory => 0,
            Stage::Fetch => 1,
            Stage::Load => 2,
            Stage::Create => 3,
            Stage::Read => 4,
            Stage::Update => 5,
            Stage::Delete => 6,
            Stage::Exit => 7,
        }
    }

    /// The stage that follows; `Exit` follows itself.
    pub open spec fn successor(self) -> Stage {
        match self {
            Stage::EnsureDirectory => Stage::Fetch,
            Stage::Fetch => Stage::Load,
            Stage::Load => Stage::Create,
            Stage::Create => Stage::Read,
            Stage::Read => Stage::Update,
            Stage::Update => Stage::Delete,
            Stage::Delete => Stage::Exit,
            Stage::Exit => Stage::Exit,
        }
    }

    /// The stage reached from this one after `steps` stages.
    pub open spec fn after(self, steps: nat) -> Stage
        decreases steps,
    {
        if steps == 0 {
            self
        } else {
            self.successor().after((steps - 1) as nat)
        }
    }

    /// The stage at which a run starts.
    pub fn first() -> (out: Stage)
        ensures
            out == Stage::EnsureDirectory,
    {
        Stage::EnsureDirectory
    }

    /// Whether the run is over.
    pub fn is_exit(self) -> (out: bool)
        ensures
            out == (self == Stage::Exit),
    {
        match self {
            Stage::Exit => true,
            _ => false,
        }
    }

    /// The stage to go on with once this one has ended, well or badly: the
    /// outcome does not change the course.
    pub fn next(self, succeeded: bool) -> (out: Stage)
        ensures
            out == self.successor(),
    {
        match self {
            Stage::EnsureDirectory => Stage::Fetch,
            Stage::Fetch => Stage::Load,
            Stage::Load => Stage::Create,
            Stage::Create => Stage::Read,
            Stage::Read => Stage::Update,
            Stage::Update => Stage::Delete,
            Stage::Delete => Stage::Exit,
            Stage::Exit => Stage::Exit,
        }
    }
}

/// The channel for the report of a stage: errors go to their own channel.
pub fn channel(succeeded: bool) -> (out: Channel)
    ensures
        out == if succeeded {
            Channel::Standard
        } else {
            Channel::Error
        },
{
    if succeeded {
        Channel::Standard
    } else {
        Channel::Error
    }
}

/// The status with which a run ends, whatever failed on the way.
pub fn exit_status() -> (out: i32)
    ensures
        out == 0,
{
    0
}

/// A run moves forward one stage at a time and never back: before `Exit`
/// each step raises the position by one, and `Exit` is kept.
pub proof fn lemma_step_forward(stage: Stage)
    ensures
        stage != Stage::Exit ==> stage.successor().position() == stage.position() + 1,
        stage == Stage::Exit ==> stage.successor() == Stage::Exit,
{
}

/// Every run ends: from any stage, `Exit` is reached after as many steps
/// as stages are left, and is kept from then on.
pub proof fn lemma_run_ends(stage: Stage, steps: nat)
    requires
        steps + stage.position() >= 7,
    ensures
        stage.after(steps) == Stage::Exit,
    decreases steps,
{
    if steps > 0 {
        lemma_step_forward(stage);
        lemma_run_ends(stage.successor(), (steps - 1) as nat);
    }
}

} // verus!
