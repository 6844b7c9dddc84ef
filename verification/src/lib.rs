//! Generator-style suspendable computations: an explicit coroutine engine
//! driving step-indexed frames, plus the compile-time rewriting pass that
//! lowers `yield`/`await` syntax into explicit suspension operations.

pub mod ast;
pub mod awt;
pub mod input;
pub mod not_sync;
pub mod scan;
pub mod slot;
pub mod sync;
pub mod trans;
pub mod yld;

use vstd::prelude::*;

verus! {

/// Outcome of driving a suspendable computation one step: either it has
/// produced its value, or it is waiting on something external.
pub enum Poll<T> {
    Ready(T),
    Pending,
}

/// The driver-visible lifecycle of a generator frame.
///
/// `Running` holds only while a resume call is on the stack; between calls a
/// frame is in one of the four other states. `Completed` is terminal.
#[derive(Clone, Copy, PartialEq, Eq, Structural, Debug)]
pub enum State {
    NotStarted,
    Running,
    YieldSuspended,
    AwaitSuspended,
    Completed,
}

} // verus!
