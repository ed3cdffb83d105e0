//! Duplicating a handle out of another process, and closing it again: the
//! outcome of each system call, told apart.

use vstd::prelude::*;

verus! {

/// Why a handle could not be brought over or given back. The numbers are
/// the system's last error.
#[derive(PartialEq, Eq, Copy, Clone, Debug, Structural)]
pub enum HandleError {
    InvalidProcess,
    CannotDuplicate(u32),
    CannotClose(u32),
}

/// Whether a handle value stands for no object: null, or all bits set.
pub open spec fn is_invalid_handle(handle: usize) -> bool {
    handle == 0 || handle == usize::MAX
}

/// Judges the handle of the source process. `opened` is what opening the
/// process gave, `None` where the call failed.
pub fn check_process(opened: Option<usize>) -> (process: Result<usize, HandleError>)
    ensures
        process == match opened {
            Some(handle) if !is_invalid_handle(handle) => Ok::<usize, HandleError>(handle),
            _ => Err(HandleError::InvalidProcess),
        },
{
    match opened {
        Some(handle) => {
            if handle == 0 || handle == usize::MAX {
                Err(HandleError::InvalidProcess)
            } else {
                Ok(handle)
            }
        },
        None => Err(HandleError::InvalidProcess),
    }
}

/// Judges a duplication: the new handle where the call succeeded, else
/// the system's last error.
pub fn check_duplicate(succeeded: bool, duplicate: usize, last_error: u32) -> (handle: Result<
    usize,
    HandleError,
>)
    ensures
        handle == if succeeded {
            Ok::<usize, HandleError>(duplicate)
        } else {
            Err(HandleError::CannotDuplicate(last_error))
        },
{
    if !succeeded {
        return Err(HandleError::CannotDuplicate(last_error));
    }
    Ok(duplicate)
}

/// Judges a close: the system's last error where the call failed.
pub fn check_close(succeeded: bool, last_error: u32) -> (closed: Result<(), HandleError>)
    ensures
        closed == if succeeded {
            Ok::<(), HandleError>(())
        } else {
            Err(HandleError::CannotClose(last_error))
        },
{
    if !succeeded {
        return Err(HandleError::CannotClose(last_error));
    }
    Ok(())
}

impl HandleError {
    /// The error in words.
    pub fn message(&self) -> (text: &'static str)
        ensures
            text@ == match self {
                HandleError::InvalidProcess => "Unable to open source process"@,
                HandleError::CannotDuplicate(_) => "Unable to duplicate handle"@,
                HandleError::CannotClose(_) => "Unable to close handle"@,
            },
    {
        match self {
            HandleError::InvalidProcess => "Unable to open source process",
            HandleError::CannotDuplicate(_) => "Unable to duplicate handle",
            HandleError::CannotClose(_) => "Unable to close handle",
        }
    }
}

} // verus!
