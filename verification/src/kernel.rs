//! The kernel of an actor: its queue, its mailbox and its control channel.
use vstd::prelude::*;

use crate::system::ActorSystem;

pub mod channel;
pub mod kernel_ref;
pub mod mailbox;
pub mod queue;

verus! {

/// A lifecycle verb for the run loop of an actor.
#[derive(Clone)]
pub enum KernelMsg {
    /// Stop the actor.
    TerminateActor,
    /// Restart the actor.
    RestartActor,
    /// Sweep the mailbox of the actor.
    RunActor,
    /// Start up with this handle on the system.
    Sys(ActorSystem),
}

} // verus!
