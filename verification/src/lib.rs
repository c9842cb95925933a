//! The concurrency core of an actor runtime.
//!
//! Every actor has a mailbox: a queue of messages with a flag that says
//! whether a run of the actor has been requested. Producers send through
//! [`kernel::kernel_ref::dispatch`], which puts the message in the queue and
//! requests a run when the mailbox was idle. Lifecycle verbs travel apart from
//! the messages, over the control channel of [`kernel::kernel_ref::KernelRef`].
use vstd::prelude::*;

pub mod actor;
pub mod kernel;
pub mod system;

verus! {

/// What can travel as a message: a value that can be cloned and moved to
/// another thread.
pub trait Message: Clone + Send + 'static {

}

impl<T: Clone + Send + 'static> Message for T {

}

/// A message on its way to an actor, with the identity of the actor that sent
/// it, if one did.
#[derive(Clone)]
pub struct Envelope<T: Message> {
    pub sender: Option<actor::uri::ActorUri>,
    pub msg: T,
}

} // verus!
