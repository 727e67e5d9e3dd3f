use vstd::prelude::*;

verus! {

/// What can go wrong when working on a stream of a container.
#[derive(Clone, Copy, Debug, PartialEq, Eq, Structural)]
pub enum Error {
    /// The container's seek primitive answered with this negative status.
    SeekFailed(i32),
}

} // verus!
