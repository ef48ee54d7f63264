//! Error taxonomy. Configuration errors are fatal and detected at setup;
//! resource errors go back to the immediate caller as WASI codes; a
//! suspension-protocol error or a guest trap makes the instance unusable; a
//! voluntary yield is a first-class outcome, not an error.

use vstd::prelude::*;

verus! {

/// Errors shared by the common engine operations.
#[derive(Clone, Copy, Debug, PartialEq, Eq, Structural)]
pub enum CoreCommonError {
    /// A generic runtime failure.
    RuntimeError,
    /// The named exported function does not exist.
    FuncNotFound,
}

/// Errors raised while guest code executes.
#[derive(Clone, Copy, Debug, PartialEq, Eq, Structural)]
pub enum CoreExecutionError {
    /// Call arguments do not match the function's type.
    FuncTypeMismatch,
    /// The guest reached an unreachable instruction.
    Unreachable,
}

/// Errors raised while loading a module.
#[derive(Clone, Copy, Debug, PartialEq, Eq, Structural)]
pub enum CoreLoadError {
    /// The module bytes could not be read.
    ReadError,
}

/// The outer result of driving a guest call.
#[derive(Clone, Copy, Debug, PartialEq, Eq, Structural)]
pub enum CoreError {
    /// A shared engine failure.
    Common(CoreCommonError),
    /// A failure during guest execution.
    Execution(CoreExecutionError),
    /// A failure while loading a module.
    Load(CoreLoadError),
    /// The module lacks the suspend/resume instrumentation, or it
    /// misbehaved: fatal for this instance.
    Asyncify,
    /// The guest suspended voluntarily. Not a failure: the call resolves
    /// after a snapshot/restore cycle drives a new call sequence.
    Yield,
    /// The guest's exported function signaled termination; the exit code is
    /// recorded in its context, and the instance is not reusable.
    Terminated,
}

impl CoreError {
    /// Whether this outcome is the voluntary-yield condition rather than a
    /// failure.
    pub fn is_yield(&self) -> (r: bool)
        ensures
            r == (self is Yield),
    {
        match self {
            CoreError::Yield => true,
            _ => false,
        }
    }
}

/// Errors raised by instance-level operations.
#[derive(Clone, Debug, PartialEq, Eq)]
pub enum InstanceError {
    /// An import module could not be created.
    CreateImportModule,
    /// The named exported function is absent.
    NotFoundFunc(String),
    /// The named exported memory is absent.
    NotFoundMem(String),
    /// A global named in a snapshot is absent from the destination
    /// instance, e.g. a module mismatch.
    UnknownGlobal(String),
    /// The destination memory is smaller than the captured extent.
    MemoryWriteError(String),
}

/// Errors raised while driving one guest call.
#[derive(Clone, Debug, PartialEq, Eq)]
pub enum CallError {
    /// An instance-level failure.
    InstanceError(InstanceError),
    /// A runtime failure.
    RuntimeError(CoreError),
}

/// Errors raised while registering a host function.
#[derive(Clone, Copy, Debug, PartialEq, Eq, Structural)]
pub enum AddFuncError {
    /// The name holds an interior nul byte.
    NameError,
    /// The name does not follow the asynchronous-import naming convention.
    IllegalName,
    /// The engine refused to create the function instance.
    FunctionCreate,
}

/// A pre-open path does not name a directory.
#[derive(Clone, Copy, Debug, PartialEq, Eq, Structural)]
pub struct NotDirError;

} // verus!
