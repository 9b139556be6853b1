use vstd::prelude::*;

verus! {

/// Every way an operation on the target process, its modules or a hook can fail.
#[derive(Debug, Clone, PartialEq, Eq)]
pub enum MemoryError {
    /// The target process has exited.
    ProcessNotRunning,
    /// The process reported an exit code that is neither "still active" nor a normal exit.
    UnknownExitCode(u32),
    /// The address is zero or above the user-space ceiling.
    OutOfRange(usize),
    /// Reading at this address failed while the process was not known to have exited.
    ReadFailed(usize),
    /// Writing at this address failed while the process was not known to have exited.
    WriteFailed(usize),
    /// The operating system refused to describe the memory region at this address.
    QueryFailed(usize),
    /// The operating system refused to allocate remote memory.
    AllocationFailed,
    /// Releasing the region at this address failed.
    FreeFailed(usize),
    /// Removing a hook could not free the regions at these addresses; the
    /// hook still holds them.
    FreesFailed(Vec<usize>),
    /// The hook is installed or in the middle of a step; it must be removed
    /// before it is installed again.
    HookInProgress,
    /// No remote thread could be started at this address.
    ThreadCreationFailed(usize),
    /// The pattern is not a valid byte pattern.
    InvalidPattern(String),
    /// The pattern matched nowhere in the scanned memory.
    PatternNotFound(String),
    /// The pattern matched this many times where exactly one match was asked for.
    AmbiguousPattern(String, usize),
    /// No module image of this name exists on disk.
    ModuleNotFound(String),
    /// The live process has no module of this name loaded.
    ModuleNotLoaded(String),
    /// The module's export table has no symbol of this name.
    SymbolNotFound(String, String),
    /// The file is not a valid module image.
    ParseError(String),
    /// The file could not be read.
    IoError(String),
    /// The pattern that locates a hook's jump address matched nowhere.
    JumpAddressNotFound(String),
    /// No client installation holds the game executable.
    InstallNotFound,
}

} // verus!
