//! The runtime that actors live in, as far as the kernel needs it.
use vstd::prelude::*;

verus! {

/// `futures::executor::ThreadPool`, the executor that runs the tasks of the
/// system. Carried as an opaque value.
#[verifier::external_type_specification]
#[verifier::external_body]
pub struct ExThreadPool(futures::executor::ThreadPool);

/// `Clone` of `futures::executor::ThreadPool`: another handle on the same
/// pool. Nothing is claimed of it.
pub assume_specification[ <futures::executor::ThreadPool as Clone>::clone ](
    pool: &futures::executor::ThreadPool,
) -> (other: futures::executor::ThreadPool);

/// A handle on the actor system. Clones share the system.
#[derive(Clone)]
pub struct ActorSystem {
    /// The executor on which the system spawns its tasks.
    pub pool: futures::executor::ThreadPool,
}

impl ActorSystem {
    /// A system that spawns its tasks on `pool`.
    pub fn new(pool: futures::executor::ThreadPool) -> (sys: Self)
        ensures
            sys.pool == pool,
    {
        ActorSystem { pool }
    }
}

} // verus!
