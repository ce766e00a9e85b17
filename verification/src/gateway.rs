//! The phases in which a gateway runs a contract.

use vstd::prelude::*;

verus! {

/// A phase of the run of a contract through a gateway.
#[derive(Clone, Copy, Debug, PartialEq, Eq, Structural)]
pub enum GatewayPhase {
    Execution,
    Commit,
    Revert,
}

impl GatewayPhase {
    /// The phase of the number `phase`: 0 is the execution, 1 the commit and
    /// 2 the revert; no other number is a phase.
    pub fn from_number(phase: u8) -> (res: Option<GatewayPhase>)
        ensures
            res == (if phase == 0 {
                Some(GatewayPhase::Execution)
            } else if phase == 1 {
                Some(GatewayPhase::Commit)
            } else if phase == 2 {
                Some(GatewayPhase::Revert)
            } else {
                None
            }),
    {
        match phase {
            0 => Some(GatewayPhase::Execution),
            1 => Some(GatewayPhase::Commit),
            2 => Some(GatewayPhase::Revert),
            _ => None,
        }
    }

    /// What is reported where the event that ends the phase well was not
    /// among the events of the call.
    pub fn missing_event(&self) -> (text: &'static str)
        ensures
            text@ == (match self {
                GatewayPhase::Execution =>
                    "Failed to find a RuntimeGatewayVersatileExecutionSuccessEvent event"@,
                GatewayPhase::Commit =>
                    "Failed to find a RuntimeGatewayVersatileExecutionCommitEvent event"@,
                GatewayPhase::Revert =>
                    "Failed to find a RuntimeGatewayVersatileExecutionRevertEvent event"@,
            }),
    {
        match self {
            GatewayPhase::Execution => {
                "Failed to find a RuntimeGatewayVersatileExecutionSuccessEvent event"
            },
            GatewayPhase::Commit => {
                "Failed to find a RuntimeGatewayVersatileExecutionCommitEvent event"
            },
            GatewayPhase::Revert => {
                "Failed to find a RuntimeGatewayVersatileExecutionRevertEvent event"
            },
        }
    }
}

} // verus!
