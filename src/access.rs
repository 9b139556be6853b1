//! What the outcome of each memory primitive means.
//!
//! The owner of the process handle performs a primitive (read, write,
//! allocate, free, start a thread) and, only when it failed, asks the process
//! for its exit code. The functions here turn that outcome into a result.
use vstd::prelude::*;
use crate::error::MemoryError;

verus! {

/// Highest address of user space that a read or write may start at.
pub const USER_SPACE_CEILING: u64 = 0x7FFF_FFFF_FFFF_FFFF;

/// Exit code that the operating system reports for a process still running.
pub const STILL_ACTIVE: u32 = 259;

/// Exit code of a process that ended normally.
pub const NORMAL_EXIT: u32 = 0;

/// What a primitive on the target process came to.
#[derive(Debug, Clone, PartialEq, Eq)]
pub enum Outcome<T> {
    /// The primitive succeeded with this value.
    Done(T),
    /// The primitive failed; the process then reported this exit code.
    Failed { exit_code: u32 },
}

/// A remote address that a read or a write may use.
pub open spec fn address_in_range(address: usize) -> bool {
    0 < address && address as u64 <= USER_SPACE_CEILING
}

/// Whether the process is running, from the exit code that it reports.
pub fn is_running(exit_code: u32) -> (r: Result<bool, MemoryError>)
    ensures
        exit_code == STILL_ACTIVE ==> r == Ok::<bool, MemoryError>(true),
        exit_code == NORMAL_EXIT ==> r == Ok::<bool, MemoryError>(false),
        exit_code != STILL_ACTIVE && exit_code != NORMAL_EXIT ==> r == Err::<bool, MemoryError>(
            MemoryError::UnknownExitCode(exit_code),
        ),
{
    if exit_code == STILL_ACTIVE {
        Ok(true)
    } else if exit_code == NORMAL_EXIT {
        Ok(false)
    } else {
        Err(MemoryError::UnknownExitCode(exit_code))
    }
}

/// Refuses an address that no read or write may use.
pub fn check_address(address: usize) -> (r: Result<(), MemoryError>)
    ensures
        address_in_range(address) <==> r is Ok,
        !address_in_range(address) ==> r == Err::<(), MemoryError>(MemoryError::OutOfRange(address)),
{
    if 0 < address && address as u64 <= USER_SPACE_CEILING {
        Ok(())
    } else {
        Err(MemoryError::OutOfRange(address))
    }
}

/// The error of a failed read or write: the process has exited, or the
/// access itself failed (also when the exit code is not understood).
pub open spec fn failure(address: usize, exit_code: u32, write: bool) -> MemoryError {
    if exit_code == NORMAL_EXIT {
        MemoryError::ProcessNotRunning
    } else if write {
        MemoryError::WriteFailed(address)
    } else {
        MemoryError::ReadFailed(address)
    }
}

/// The result of reading `size` bytes at `address`, given what the read came to.
/// A read that delivered another number of bytes than asked for failed.
pub fn read_bytes_result(address: usize, size: usize, outcome: Outcome<Vec<u8>>) -> (r: Result<
    Vec<u8>,
    MemoryError,
>)
    ensures
        !address_in_range(address) ==> r == Err::<Vec<u8>, MemoryError>(
            MemoryError::OutOfRange(address),
        ),
        address_in_range(address) ==> match outcome {
            Outcome::Done(bytes) => if bytes@.len() == size {
                r == Ok::<Vec<u8>, MemoryError>(bytes)
            } else {
                r == Err::<Vec<u8>, MemoryError>(MemoryError::ReadFailed(address))
            },
            Outcome::Failed { exit_code } => r == Err::<Vec<u8>, MemoryError>(
                failure(address, exit_code, false),
            ),
        },
        r matches Ok(bytes) ==> bytes@.len() == size,
{
    check_address(address)?;
    match outcome {
        Outcome::Done(bytes) => {
            if bytes.len() == size {
                Ok(bytes)
            } else {
                Err(MemoryError::ReadFailed(address))
            }
        },
        Outcome::Failed { exit_code } => {
            if exit_code == NORMAL_EXIT {
                Err(MemoryError::ProcessNotRunning)
            } else {
                Err(MemoryError::ReadFailed(address))
            }
        },
    }
}

/// The result of writing `size` bytes at `address`, given what the write came
/// to (on success, how many bytes it wrote). A short write failed.
pub fn write_bytes_result(address: usize, size: usize, outcome: Outcome<usize>) -> (r: Result<
    (),
    MemoryError,
>)
    ensures
        !address_in_range(address) ==> r == Err::<(), MemoryError>(MemoryError::OutOfRange(address)),
        address_in_range(address) ==> match outcome {
            Outcome::Done(written) => if written == size {
                r == Ok::<(), MemoryError>(())
            } else {
                r == Err::<(), MemoryError>(MemoryError::WriteFailed(address))
            },
            Outcome::Failed { exit_code } => r == Err::<(), MemoryError>(
                failure(address, exit_code, true),
            ),
        },
{
    check_address(address)?;
    match outcome {
        Outcome::Done(written) => {
            if written == size {
                Ok(())
            } else {
                Err(MemoryError::WriteFailed(address))
            }
        },
        Outcome::Failed { exit_code } => {
            if exit_code == NORMAL_EXIT {
                Err(MemoryError::ProcessNotRunning)
            } else {
                Err(MemoryError::WriteFailed(address))
            }
        },
    }
}

/// The result of a remote allocation, given the address that the operating
/// system returned (zero when it refused).
pub fn allocate_result(allocated: usize) -> (r: Result<usize, MemoryError>)
    ensures
        allocated == 0 ==> r == Err::<usize, MemoryError>(MemoryError::AllocationFailed),
        allocated != 0 ==> r == Ok::<usize, MemoryError>(allocated),
{
    if allocated == 0 {
        Err(MemoryError::AllocationFailed)
    } else {
        Ok(allocated)
    }
}

/// The result of releasing the region at `address`.
pub fn free_result(address: usize, released: bool) -> (r: Result<(), MemoryError>)
    ensures
        released ==> r == Ok::<(), MemoryError>(()),
        !released ==> r == Err::<(), MemoryError>(MemoryError::FreeFailed(address)),
{
    if released {
        Ok(())
    } else {
        Err(MemoryError::FreeFailed(address))
    }
}

/// The result of starting a remote thread at `address`. The thread runs on
/// its own: nothing waits for it.
pub fn start_thread_result(address: usize, started: bool) -> (r: Result<(), MemoryError>)
    ensures
        started ==> r == Ok::<(), MemoryError>(()),
        !started ==> r == Err::<(), MemoryError>(MemoryError::ThreadCreationFailed(address)),
{
    if started {
        Ok(())
    } else {
        Err(MemoryError::ThreadCreationFailed(address))
    }
}

/// Where a module is loaded in the live process, as its module list gives it.
#[derive(Debug, Clone, Copy, PartialEq, Eq)]
pub struct ModuleInfo {
    pub base: usize,
    pub size: usize,
}

} // verus!
