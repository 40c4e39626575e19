use vstd::prelude::*;

verus! {

/// What went wrong with one spawned command.
#[derive(Clone, Copy, Debug, PartialEq, Eq, Structural)]
pub enum ExecError {
    /// The program could not be started.
    NotStarted,
    /// The program ran and exited with this non-zero status.
    Failed(i32),
}

/// Every error that a run of the library can end with.
#[derive(Debug)]
pub enum Error {
    /// The backend named by the user is not known.
    UnknownBackend(String),
    /// No backend is known for the host platform.
    UnsupportedPlatform(String),
    /// A command of the plan failed.
    Exec(ExecError),
}

/// The status the process exits with after the given outcome.
pub open spec fn exit_code_of(r: Result<(), Error>) -> i32 {
    match r {
        Ok(()) => 0,
        Err(Error::Exec(ExecError::Failed(c))) => if c != 0 { c } else { 1 },
        Err(_) => 1,
    }
}

/// The process exit status for an outcome: 0 on success, the child's own
/// status when a child failed, and 1 for every other error.
pub fn exit_code(r: &Result<(), Error>) -> (c: i32)
    ensures
        c == exit_code_of(*r),
        (c == 0) <==> r is Ok,
{
    match r {
        Ok(()) => 0,
        Err(Error::Exec(ExecError::Failed(c))) => if *c != 0 { *c } else { 1 },
        Err(_) => 1,
    }
}

} // verus!
