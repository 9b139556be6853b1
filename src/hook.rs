//! The life of one inline hook, as a state machine.
//!
//! Installing a hook locates its jump address by a pattern scan, allocates
//! remote memory for the stub, obtains the stub's and the jump's bytecode
//! from the hook's definition, saves the bytes at the jump address, writes
//! the stub and finally the jump. Removing it writes the saved bytes back and
//! frees every allocation. Each step returns a [`HookAction`] that the owner
//! of the process handle performs; the owner hands the outcome to the next
//! step. A failed step leaves the hook idle, with every allocation that it
//! made still recorded for [`MemoryHook::unhook`] to free.
use vstd::prelude::*;
use crate::error::MemoryError;
use crate::names::NameMap;

verus! {

/// Size of the remote region allocated for a hook's stub.
pub const HOOK_SIZE: usize = 50;

/// Where a hook stands.
#[derive(Debug, Clone, Copy, PartialEq, Eq, Structural)]
pub enum HookPhase {
    /// Not installed, and no step is under way.
    Idle,
    /// Awaiting the scan for the jump address.
    Scanning,
    /// Awaiting the allocation of the stub.
    Allocating,
    /// Awaiting the bytecode of the stub and of the jump.
    AwaitingBytecode,
    /// Awaiting the bytes at the jump address.
    ReadingOriginal,
    /// Awaiting the hook definition's step before anything is written.
    PreHook,
    /// Awaiting the write of the stub.
    WritingStub,
    /// Awaiting the write of the jump.
    WritingJump,
    /// Installed.
    Installed,
    /// Awaiting the write that restores the saved bytes.
    Restoring,
    /// Awaiting the release of an allocation.
    Freeing,
}

/// What the owner of the process handle is to do next.
#[derive(Debug, PartialEq, Eq)]
pub enum HookAction {
    /// Scan for `pattern` in `module`, asking for a single match.
    Scan { pattern: String, module: String },
    /// Allocate this many bytes of remote memory.
    Allocate(usize),
    /// Obtain the stub's and the jump's bytecode from the hook's definition.
    Bytecode { jump_address: usize, hook_address: usize },
    /// Read `size` bytes at `address`.
    Read { address: usize, size: usize },
    /// Run the hook definition's step before installation.
    PreHook,
    /// Write `bytes` at `address`.
    Write { address: usize, bytes: Vec<u8> },
    /// Run the hook definition's step after installation; the hook is installed.
    PostHook,
    /// Free the allocation at this address.
    Free(usize),
    /// The hook is removed and every allocation freed.
    Released,
}

/// A [`HookAction`] with its byte strings as sequences.
pub ghost enum HookActionView {
    Scan { pattern: Seq<char>, module: Seq<char> },
    Allocate(usize),
    Bytecode { jump_address: usize, hook_address: usize },
    Read { address: usize, size: usize },
    PreHook,
    Write { address: usize, bytes: Seq<u8> },
    PostHook,
    Free(usize),
    Released,
}

impl View for HookAction {
    type V = HookActionView;

    open spec fn view(&self) -> HookActionView {
        match self {
            HookAction::Scan { pattern, module } => HookActionView::Scan {
                pattern: pattern@,
                module: module@,
            },
            HookAction::Allocate(size) => HookActionView::Allocate(*size),
            HookAction::Bytecode { jump_address, hook_address } => HookActionView::Bytecode {
                jump_address: *jump_address,
                hook_address: *hook_address,
            },
            HookAction::Read { address, size } => HookActionView::Read {
                address: *address,
                size: *size,
            },
            HookAction::PreHook => HookActionView::PreHook,
            HookAction::Write { address, bytes } => HookActionView::Write {
                address: *address,
                bytes: bytes@,
            },
            HookAction::PostHook => HookActionView::PostHook,
            HookAction::Free(address) => HookActionView::Free(*address),
            HookAction::Released => HookActionView::Released,
        }
    }
}

/// What a step returned, with its action as a view.
pub open spec fn step_view(r: Result<HookAction, MemoryError>) -> Result<HookActionView, MemoryError> {
    match r {
        Ok(a) => Ok(a@),
        Err(e) => Err(e),
    }
}

/// The state of a hook.
pub ghost struct HookView {
    pub phase: HookPhase,
    /// Addresses already found, by name.
    pub hook_cache: Map<Seq<char>, usize>,
    /// The pattern of the current or last installation.
    pub pattern: String,
    pub jump_address: usize,
    pub hook_address: usize,
    pub jump_bytecode: Seq<u8>,
    pub hook_bytecode: Seq<u8>,
    /// The bytes at the jump address before the jump was written.
    pub jump_original_bytecode: Seq<u8>,
    /// Every remote allocation that the hook holds.
    pub allocated_addresses: Seq<usize>,
    /// The write of the jump has been asked for and not undone since.
    pub patched: bool,
    /// While freeing: the position of the allocation being freed.
    pub next_free: int,
    /// While freeing: the allocations whose release failed so far.
    pub failed_frees: Seq<usize>,
}

impl HookView {
    /// The hook's own invariant: while freeing, an allocation is being freed.
    pub open spec fn wf(self) -> bool {
        self.phase == HookPhase::Freeing ==> 0 <= self.next_free < self.allocated_addresses.len()
    }
}

/// One inline hook in the target process, with its cache of named addresses.
pub struct MemoryHook {
    phase: HookPhase,
    hook_cache: NameMap<usize>,
    pattern: String,
    jump_address: usize,
    hook_address: usize,
    jump_bytecode: Vec<u8>,
    hook_bytecode: Vec<u8>,
    jump_original_bytecode: Vec<u8>,
    allocated_addresses: Vec<usize>,
    patched: bool,
    next_free: usize,
    failed_frees: Vec<usize>,
}

impl View for MemoryHook {
    type V = HookView;

    closed spec fn view(&self) -> HookView {
        HookView {
            phase: self.phase,
            hook_cache: self.hook_cache@,
            pattern: self.pattern,
            jump_address: self.jump_address,
            hook_address: self.hook_address,
            jump_bytecode: self.jump_bytecode@,
            hook_bytecode: self.hook_bytecode@,
            jump_original_bytecode: self.jump_original_bytecode@,
            allocated_addresses: self.allocated_addresses@,
            patched: self.patched,
            next_free: self.next_free as int,
            failed_frees: self.failed_frees@,
        }
    }
}

/// The jump address that a scan for `pattern` gives: its first match. A scan
/// that found nothing becomes an error naming the pattern; other errors of
/// the scan pass through.
pub open spec fn jump_address_of(pattern: String, scan: Result<Seq<usize>, MemoryError>) -> Result<
    usize,
    MemoryError,
> {
    match scan {
        Ok(found) => if found.len() > 0 {
            Ok(found[0])
        } else {
            Err(MemoryError::JumpAddressNotFound(pattern))
        },
        Err(MemoryError::PatternNotFound(_)) => Err(MemoryError::JumpAddressNotFound(pattern)),
        Err(e) => Err(e),
    }
}

/// The jump address that a scan for `pattern` gives: see [`jump_address_of`].
pub fn jump_address_from_scan(pattern: &String, scan: Result<Vec<usize>, MemoryError>) -> (r: Result<
    usize,
    MemoryError,
>)
    ensures
        r == jump_address_of(*pattern, vec_result(scan)),
{
    match scan {
        Ok(found) => {
            if found.len() > 0 {
                Ok(found[0])
            } else {
                Err(MemoryError::JumpAddressNotFound(pattern.clone()))
            }
        },
        Err(MemoryError::PatternNotFound(_)) => Err(MemoryError::JumpAddressNotFound(pattern.clone())),
        Err(e) => Err(e),
    }
}

/// A result that holds a vector, with the vector as a sequence.
pub open spec fn vec_result<T>(r: Result<Vec<T>, MemoryError>) -> Result<Seq<T>, MemoryError> {
    match r {
        Ok(v) => Ok(v@),
        Err(e) => Err(e),
    }
}

/// The state `v` after a failed step: idle, all else kept.
pub open spec fn idle(v: HookView) -> HookView {
    HookView { phase: HookPhase::Idle, ..v }
}

/// Installation starts: the per-installation state is cleared and the jump
/// address is sought.
pub open spec fn begun(v: HookView, pattern: String, module: String) -> (HookView, Result<
    HookActionView,
    MemoryError,
>) {
    (
        HookView {
            phase: HookPhase::Scanning,
            pattern,
            jump_address: 0,
            hook_address: 0,
            jump_bytecode: Seq::empty(),
            hook_bytecode: Seq::empty(),
            jump_original_bytecode: Seq::empty(),
            ..v
        },
        Ok(HookActionView::Scan { pattern: pattern@, module: module@ }),
    )
}

/// The scan's first match becomes the jump address, and the stub is
/// allocated; a scan that found nothing fails naming the pattern.
pub open spec fn scanned(v: HookView, scan: Result<Seq<usize>, MemoryError>) -> (HookView, Result<
    HookActionView,
    MemoryError,
>) {
    match jump_address_of(v.pattern, scan) {
        Ok(address) => (
            HookView { phase: HookPhase::Allocating, jump_address: address, ..v },
            Ok(HookActionView::Allocate(HOOK_SIZE)),
        ),
        Err(e) => (idle(v), Err(e)),
    }
}

/// The stub's region is recorded among the allocations, and the bytecode is
/// asked for.
pub open spec fn stub_allocated(v: HookView, allocated: Result<usize, MemoryError>) -> (
    HookView,
    Result<HookActionView, MemoryError>,
) {
    match allocated {
        Ok(address) => (
            HookView {
                phase: HookPhase::AwaitingBytecode,
                hook_address: address,
                allocated_addresses: v.allocated_addresses.push(address),
                ..v
            },
            Ok(HookActionView::Bytecode { jump_address: v.jump_address, hook_address: address }),
        ),
        Err(e) => (idle(v), Err(e)),
    }
}

/// The bytecode is kept, and as many bytes as the jump has are read at the
/// jump address.
pub open spec fn bytecode_given(v: HookView, hook_bytecode: Seq<u8>, jump_bytecode: Seq<u8>) -> (
    HookView,
    Result<HookActionView, MemoryError>,
) {
    (
        HookView { phase: HookPhase::ReadingOriginal, hook_bytecode, jump_bytecode, ..v },
        Ok(HookActionView::Read { address: v.jump_address, size: jump_bytecode.len() as usize }),
    )
}

/// The bytes read at the jump address are saved, before anything is written.
pub open spec fn original_read(v: HookView, read: Result<Seq<u8>, MemoryError>) -> (
    HookView,
    Result<HookActionView, MemoryError>,
) {
    match read {
        Ok(bytes) => if bytes.len() == v.jump_bytecode.len() {
            (
                HookView { phase: HookPhase::PreHook, jump_original_bytecode: bytes, ..v },
                Ok(HookActionView::PreHook),
            )
        } else {
            (idle(v), Err(MemoryError::ReadFailed(v.jump_address)))
        },
        Err(e) => (idle(v), Err(e)),
    }
}

/// The stub is written first.
pub open spec fn prehook_done(v: HookView) -> (HookView, Result<HookActionView, MemoryError>) {
    (
        HookView { phase: HookPhase::WritingStub, ..v },
        Ok(HookActionView::Write { address: v.hook_address, bytes: v.hook_bytecode }),
    )
}

/// With the stub in place, the jump is written.
pub open spec fn stub_written(v: HookView, written: Result<(), MemoryError>) -> (
    HookView,
    Result<HookActionView, MemoryError>,
) {
    match written {
        Ok(_) => (
            HookView { phase: HookPhase::WritingJump, patched: true, ..v },
            Ok(HookActionView::Write { address: v.jump_address, bytes: v.jump_bytecode }),
        ),
        Err(e) => (idle(v), Err(e)),
    }
}

/// With the jump in place, the hook is installed.
pub open spec fn jump_written(v: HookView, written: Result<(), MemoryError>) -> (
    HookView,
    Result<HookActionView, MemoryError>,
) {
    match written {
        Ok(_) => (HookView { phase: HookPhase::Installed, ..v }, Ok(HookActionView::PostHook)),
        Err(e) => (idle(v), Err(e)),
    }
}

/// Freeing starts with the first allocation; with none, the hook is removed.
pub open spec fn freeing_begun(v: HookView) -> (HookView, Result<HookActionView, MemoryError>) {
    if v.allocated_addresses.len() == 0 {
        (
            HookView { phase: HookPhase::Idle, next_free: 0, failed_frees: Seq::empty(), ..v },
            Ok(HookActionView::Released),
        )
    } else {
        (
            HookView { phase: HookPhase::Freeing, next_free: 0, failed_frees: Seq::empty(), ..v },
            Ok(HookActionView::Free(v.allocated_addresses[0])),
        )
    }
}

/// Removal starts: the saved bytes go back to the jump address if the jump
/// was written; otherwise the allocations are freed at once.
pub open spec fn unhook_begun(v: HookView) -> (HookView, Result<HookActionView, MemoryError>) {
    if v.patched {
        (
            HookView { phase: HookPhase::Restoring, ..v },
            Ok(HookActionView::Write { address: v.jump_address, bytes: v.jump_original_bytecode }),
        )
    } else {
        freeing_begun(v)
    }
}

/// With the original bytes back, the allocations are freed; a failed
/// restoration frees nothing, since the jump may still lead to the stub.
pub open spec fn restored(v: HookView, written: Result<(), MemoryError>) -> (
    HookView,
    Result<HookActionView, MemoryError>,
) {
    match written {
        Ok(_) => freeing_begun(HookView { patched: false, ..v }),
        Err(e) => (idle(v), Err(e)),
    }
}

/// What a free step leads to: the next action, or the end of a removal in
/// which the allocations listed could not be freed.
pub ghost enum FreeStep {
    Next(HookActionView),
    FreesFailed(Seq<usize>),
}

/// Whether a free step returned what `step` says.
pub open spec fn free_step_matches(r: Result<HookAction, MemoryError>, step: FreeStep) -> bool {
    match step {
        FreeStep::Next(a) => r matches Ok(x) && x@ == a,
        FreeStep::FreesFailed(failed) => r matches Err(MemoryError::FreesFailed(v)) && v@ == failed,
    }
}

/// One allocation has been freed, or not: a failure is noted and freeing
/// goes on with the next. After the last, the hook is removed and keeps only
/// the allocations that could not be freed; if there are any, the removal
/// fails with an error that lists them all.
pub open spec fn freed(v: HookView, outcome: Result<(), MemoryError>) -> (HookView, FreeStep) {
    let failed = if outcome is Err {
        v.failed_frees.push(v.allocated_addresses[v.next_free])
    } else {
        v.failed_frees
    };
    let next = v.next_free + 1;
    if next < v.allocated_addresses.len() {
        (
            HookView { next_free: next, failed_frees: failed, ..v },
            FreeStep::Next(HookActionView::Free(v.allocated_addresses[next])),
        )
    } else {
        (
            HookView {
                phase: HookPhase::Idle,
                allocated_addresses: failed,
                next_free: 0,
                failed_frees: Seq::empty(),
                ..v
            },
            if failed.len() == 0 {
                FreeStep::Next(HookActionView::Released)
            } else {
                FreeStep::FreesFailed(failed)
            },
        )
    }
}

fn copy_vec<T: Copy>(v: &Vec<T>) -> (r: Vec<T>)
    ensures
        r@ == v@,
{
    let mut r: Vec<T> = Vec::new();
    let mut i: usize = 0;
    while i < v.len()
        invariant
            i <= v@.len(),
            r@ == v@.subrange(0, i as int),
        decreases v.len() - i,
    {
        r.push(v[i]);
        i = i + 1;
    }
    r
}

impl MemoryHook {
    /// A hook that is not installed, holds nothing and has an empty cache.
    pub fn new() -> (r: Self)
        ensures
            r@.wf(),
            r@.phase == HookPhase::Idle,
            r@.hook_cache == Map::<Seq<char>, usize>::empty(),
            r@.jump_address == 0,
            r@.hook_address == 0,
            r@.jump_bytecode.len() == 0,
            r@.hook_bytecode.len() == 0,
            r@.jump_original_bytecode.len() == 0,
            r@.allocated_addresses.len() == 0,
            !r@.patched,
    {
        MemoryHook {
            phase: HookPhase::Idle,
            hook_cache: NameMap::new(),
            pattern: String::new(),
            jump_address: 0,
            hook_address: 0,
            jump_bytecode: Vec::new(),
            hook_bytecode: Vec::new(),
            jump_original_bytecode: Vec::new(),
            allocated_addresses: Vec::new(),
            patched: false,
            next_free: 0,
            failed_frees: Vec::new(),
        }
    }

    /// Starts installing the hook whose definition gives `pattern` and
    /// `module`. Only an idle hook whose jump is not written can start.
    pub fn hook(&mut self, pattern: String, module: String) -> (r: HookAction)
        requires
            old(self)@.wf(),
            old(self)@.phase == HookPhase::Idle,
            !old(self)@.patched,
        ensures
            final(self)@.wf(),
            (final(self)@, Ok::<HookActionView, MemoryError>(r@)) == begun(old(self)@, pattern, module),
    {
        let action = HookAction::Scan { pattern: pattern.clone(), module };
        self.phase = HookPhase::Scanning;
        self.pattern = pattern;
        self.jump_address = 0;
        self.hook_address = 0;
        self.jump_bytecode = Vec::new();
        self.hook_bytecode = Vec::new();
        self.jump_original_bytecode = Vec::new();
        action
    }

    /// Takes the result of the scan for the jump address.
    pub fn on_jump_scan(&mut self, scan: Result<Vec<usize>, MemoryError>) -> (r: Result<HookAction, MemoryError>)
        requires
            old(self)@.wf(),
            old(self)@.phase == HookPhase::Scanning,
        ensures
            final(self)@.wf(),
            (final(self)@, step_view(r)) == scanned(old(self)@, vec_result(scan)),
    {
        match jump_address_from_scan(&self.pattern, scan) {
            Ok(address) => {
                self.jump_address = address;
                self.phase = HookPhase::Allocating;
                Ok(HookAction::Allocate(HOOK_SIZE))
            },
            Err(e) => {
                self.phase = HookPhase::Idle;
                Err(e)
            },
        }
    }

    /// Takes the result of allocating the stub's region.
    pub fn on_hook_allocated(&mut self, allocated: Result<usize, MemoryError>) -> (r: Result<HookAction, MemoryError>)
        requires
            old(self)@.wf(),
            old(self)@.phase == HookPhase::Allocating,
        ensures
            final(self)@.wf(),
            (final(self)@, step_view(r)) == stub_allocated(old(self)@, allocated),
    {
        match allocated {
            Ok(address) => {
                self.allocated_addresses.push(address);
                self.hook_address = address;
                self.phase = HookPhase::AwaitingBytecode;
                Ok(HookAction::Bytecode { jump_address: self.jump_address, hook_address: address })
            },
            Err(e) => {
                self.phase = HookPhase::Idle;
                Err(e)
            },
        }
    }

    /// Takes the bytecode of the stub and of the jump.
    pub fn on_bytecode(&mut self, hook_bytecode: Vec<u8>, jump_bytecode: Vec<u8>) -> (r: HookAction)
        requires
            old(self)@.wf(),
            old(self)@.phase == HookPhase::AwaitingBytecode,
        ensures
            final(self)@.wf(),
            (final(self)@, Ok::<HookActionView, MemoryError>(r@)) == bytecode_given(
                old(self)@,
                hook_bytecode@,
                jump_bytecode@,
            ),
    {
        let size = jump_bytecode.len();
        self.hook_bytecode = hook_bytecode;
        self.jump_bytecode = jump_bytecode;
        self.phase = HookPhase::ReadingOriginal;
        HookAction::Read { address: self.jump_address, size }
    }

    /// Takes the bytes read at the jump address.
    pub fn on_original_read(&mut self, read: Result<Vec<u8>, MemoryError>) -> (r: Result<HookAction, MemoryError>)
        requires
            old(self)@.wf(),
            old(self)@.phase == HookPhase::ReadingOriginal,
        ensures
            final(self)@.wf(),
            (final(self)@, step_view(r)) == original_read(old(self)@, vec_result(read)),
    {
        match read {
            Ok(bytes) => {
                if bytes.len() == self.jump_bytecode.len() {
                    self.jump_original_bytecode = bytes;
                    self.phase = HookPhase::PreHook;
                    Ok(HookAction::PreHook)
                } else {
                    self.phase = HookPhase::Idle;
                    Err(MemoryError::ReadFailed(self.jump_address))
                }
            },
            Err(e) => {
                self.phase = HookPhase::Idle;
                Err(e)
            },
        }
    }

    /// The hook definition's step before installation has run.
    pub fn on_prehook_done(&mut self) -> (r: HookAction)
        requires
            old(self)@.wf(),
            old(self)@.phase == HookPhase::PreHook,
        ensures
            final(self)@.wf(),
            (final(self)@, Ok::<HookActionView, MemoryError>(r@)) == prehook_done(old(self)@),
    {
        self.phase = HookPhase::WritingStub;
        HookAction::Write { address: self.hook_address, bytes: copy_vec(&self.hook_bytecode) }
    }

    /// Takes the result of writing the stub.
    pub fn on_stub_written(&mut self, written: Result<(), MemoryError>) -> (r: Result<HookAction, MemoryError>)
        requires
            old(self)@.wf(),
            old(self)@.phase == HookPhase::WritingStub,
        ensures
            final(self)@.wf(),
            (final(self)@, step_view(r)) == stub_written(old(self)@, written),
    {
        match written {
            Ok(_) => {
                self.phase = HookPhase::WritingJump;
                self.patched = true;
                Ok(HookAction::Write { address: self.jump_address, bytes: copy_vec(&self.jump_bytecode) })
            },
            Err(e) => {
                self.phase = HookPhase::Idle;
                Err(e)
            },
        }
    }

    /// Takes the result of writing the jump.
    pub fn on_jump_written(&mut self, written: Result<(), MemoryError>) -> (r: Result<HookAction, MemoryError>)
        requires
            old(self)@.wf(),
            old(self)@.phase == HookPhase::WritingJump,
        ensures
            final(self)@.wf(),
            (final(self)@, step_view(r)) == jump_written(old(self)@, written),
    {
        match written {
            Ok(_) => {
                self.phase = HookPhase::Installed;
                Ok(HookAction::PostHook)
            },
            Err(e) => {
                self.phase = HookPhase::Idle;
                Err(e)
            },
        }
    }

    fn begin_freeing(&mut self) -> (r: Result<HookAction, MemoryError>)
        ensures
            (final(self)@, step_view(r)) == freeing_begun(old(self)@),
            final(self)@.wf(),
    {
        self.next_free = 0;
        self.failed_frees = Vec::new();
        if self.allocated_addresses.len() == 0 {
            self.phase = HookPhase::Idle;
            Ok(HookAction::Released)
        } else {
            self.phase = HookPhase::Freeing;
            Ok(HookAction::Free(self.allocated_addresses[0]))
        }
    }

    /// Starts removing the hook, installed or left idle by a failed step.
    pub fn unhook(&mut self) -> (r: Result<HookAction, MemoryError>)
        requires
            old(self)@.wf(),
            old(self)@.phase == HookPhase::Installed || old(self)@.phase == HookPhase::Idle,
        ensures
            final(self)@.wf(),
            (final(self)@, step_view(r)) == unhook_begun(old(self)@),
    {
        if self.patched {
            self.phase = HookPhase::Restoring;
            Ok(HookAction::Write {
                address: self.jump_address,
                bytes: copy_vec(&self.jump_original_bytecode),
            })
        } else {
            self.begin_freeing()
        }
    }

    /// Takes the result of writing the saved bytes back.
    pub fn on_restored(&mut self, written: Result<(), MemoryError>) -> (r: Result<HookAction, MemoryError>)
        requires
            old(self)@.wf(),
            old(self)@.phase == HookPhase::Restoring,
        ensures
            final(self)@.wf(),
            (final(self)@, step_view(r)) == restored(old(self)@, written),
    {
        match written {
            Ok(_) => {
                self.patched = false;
                self.begin_freeing()
            },
            Err(e) => {
                self.phase = HookPhase::Idle;
                Err(e)
            },
        }
    }

    /// Takes the result of freeing one allocation.
    pub fn on_freed(&mut self, outcome: Result<(), MemoryError>) -> (r: Result<HookAction, MemoryError>)
        requires
            old(self)@.wf(),
            old(self)@.phase == HookPhase::Freeing,
        ensures
            final(self)@.wf(),
            final(self)@ == freed(old(self)@, outcome).0,
            free_step_matches(r, freed(old(self)@, outcome).1),
    {
        let n = self.allocated_addresses.len();
        let address = self.allocated_addresses[self.next_free];
        if outcome.is_err() {
            self.failed_frees.push(address);
        }
        self.next_free = self.next_free + 1;
        if self.next_free < n {
            Ok(HookAction::Free(self.allocated_addresses[self.next_free]))
        } else {
            let failed = copy_vec(&self.failed_frees);
            self.allocated_addresses = copy_vec(&self.failed_frees);
            self.phase = HookPhase::Idle;
            self.next_free = 0;
            self.failed_frees = Vec::new();
            if failed.len() == 0 {
                Ok(HookAction::Released)
            } else {
                Err(MemoryError::FreesFailed(failed))
            }
        }
    }
}

impl MemoryHook {
    /// Whether an address is cached under `name`.
    pub fn is_cached(&self, name: &str) -> (r: bool)
        ensures
            r == self@.hook_cache.contains_key(name@),
    {
        self.hook_cache.contains(name)
    }

    /// Caches `value` under `name`, replacing what was cached there.
    pub fn cache(&mut self, name: String, value: usize)
        ensures
            final(self)@ == (HookView { hook_cache: old(self)@.hook_cache.insert(name@, value), ..old(self)@ }),
    {
        self.hook_cache.insert(name, value);
    }

    /// The address cached under `name`.
    pub fn get_cached(&self, name: &str) -> (r: Option<usize>)
        ensures
            r == (if self@.hook_cache.contains_key(name@) {
                Some(self@.hook_cache[name@])
            } else {
                None
            }),
    {
        match self.hook_cache.get(name) {
            Some(value) => Some(*value),
            None => None,
        }
    }

    /// Takes the result of a remote allocation made for this hook, and
    /// records a successful one so that removing the hook frees it.
    pub fn track_allocation(&mut self, allocated: Result<usize, MemoryError>) -> (r: Result<usize, MemoryError>)
        requires
            old(self)@.wf(),
        ensures
            final(self)@.wf(),
            r == allocated,
            final(self)@ == (match allocated {
                Ok(address) => HookView {
                    allocated_addresses: old(self)@.allocated_addresses.push(address),
                    ..old(self)@
                },
                Err(_) => old(self)@,
            }),
    {
        if let Ok(address) = allocated {
            self.allocated_addresses.push(address);
        }
        allocated
    }

    /// Where the hook stands.
    pub fn phase(&self) -> (r: HookPhase)
        ensures
            r == self@.phase,
    {
        self.phase
    }

    /// Whether the jump has been written (or its write attempted) and not
    /// undone since; such a hook must be removed before it is installed again.
    pub fn is_patched(&self) -> (r: bool)
        ensures
            r == self@.patched,
    {
        self.patched
    }

    /// The address of the intercepted instructions.
    pub fn jump_address(&self) -> (r: usize)
        ensures
            r == self@.jump_address,
    {
        self.jump_address
    }

    /// The address of the stub.
    pub fn hook_address(&self) -> (r: usize)
        ensures
            r == self@.hook_address,
    {
        self.hook_address
    }

    /// The bytes written at the jump address.
    pub fn jump_bytecode(&self) -> (r: &Vec<u8>)
        ensures
            r@ == self@.jump_bytecode,
    {
        &self.jump_bytecode
    }

    /// The bytes written at the stub's address.
    pub fn hook_bytecode(&self) -> (r: &Vec<u8>)
        ensures
            r@ == self@.hook_bytecode,
    {
        &self.hook_bytecode
    }

    /// The bytes at the jump address before the jump was written.
    pub fn jump_original_bytecode(&self) -> (r: &Vec<u8>)
        ensures
            r@ == self@.jump_original_bytecode,
    {
        &self.jump_original_bytecode
    }

    /// Every remote allocation that the hook holds.
    pub fn allocated_addresses(&self) -> (r: &Vec<usize>)
        ensures
            r@ == self@.allocated_addresses,
    {
        &self.allocated_addresses
    }
}

/// What a family of hooks supplies: where its jump goes and what it writes.
/// The engine in [`MemoryHook`] does the rest.
pub trait HookDefinition {
    /// The pattern that locates the jump address, and the module scanned for it.
    fn get_pattern(&self) -> (String, String);

    /// The bytes written at `jump_address`, which lead to the stub at `hook_address`.
    fn get_jump_bytecode(&self, jump_address: usize, hook_address: usize) -> Vec<u8>;

    /// The stub written at `hook_address`, which returns to the code after `jump_address`.
    fn get_hook_bytecode(&self, jump_address: usize, hook_address: usize) -> Vec<u8>;

    /// Runs before anything is written.
    fn prehook(&self) {
    }

    /// Runs once the hook is installed.
    fn posthook(&self) {
    }
}

/// Installing a hook and then removing it writes back, at the jump address,
/// exactly the bytes that were read there before the hook wrote anything,
/// whether the write of the jump succeeded or failed.
pub proof fn lemma_unhook_restores_original(
    v: HookView,
    original: Seq<u8>,
    jump_write: Result<(), MemoryError>,
)
    requires
        v.phase == HookPhase::ReadingOriginal,
        original.len() == v.jump_bytecode.len(),
    ensures
        ({
            let (read, _) = original_read(v, Ok(original));
            let (ready, _) = prehook_done(read);
            let (stub, jump) = stub_written(ready, Ok(()));
            let (done, _) = jump_written(stub, jump_write);
            let (_, restore) = unhook_begun(done);
            &&& jump == Ok::<HookActionView, MemoryError>(
                HookActionView::Write { address: v.jump_address, bytes: v.jump_bytecode },
            )
            &&& restore == Ok::<HookActionView, MemoryError>(
                HookActionView::Write { address: v.jump_address, bytes: original },
            )
        }),
{
}

/// The addresses that freeing asks to free, in order, from the state `v`
/// when the frees come to `outcomes`.
pub open spec fn frees_asked(v: HookView, outcomes: Seq<Result<(), MemoryError>>) -> Seq<usize>
    decreases outcomes.len(),
{
    if outcomes.len() == 0 || v.phase != HookPhase::Freeing || !(0 <= v.next_free
        < v.allocated_addresses.len()) {
        Seq::empty()
    } else {
        seq![v.allocated_addresses[v.next_free]] + frees_asked(freed(v, outcomes[0]).0, outcomes.drop_first())
    }
}

/// The state after freeing from `v` with the frees coming to `outcomes`.
pub open spec fn after_frees(v: HookView, outcomes: Seq<Result<(), MemoryError>>) -> HookView
    decreases outcomes.len(),
{
    if outcomes.len() == 0 || v.phase != HookPhase::Freeing || !(0 <= v.next_free
        < v.allocated_addresses.len()) {
        v
    } else {
        after_frees(freed(v, outcomes[0]).0, outcomes.drop_first())
    }
}

/// The addresses of `addresses` whose free came to an error, in order, when
/// the frees came to `outcomes`.
pub open spec fn failures(addresses: Seq<usize>, outcomes: Seq<Result<(), MemoryError>>) -> Seq<usize>
    decreases addresses.len(),
{
    if addresses.len() == 0 || outcomes.len() == 0 {
        Seq::empty()
    } else {
        (if outcomes[0] is Err {
            seq![addresses[0]]
        } else {
            Seq::empty()
        }) + failures(addresses.drop_first(), outcomes.drop_first())
    }
}

proof fn lemma_frees_from(v: HookView, outcomes: Seq<Result<(), MemoryError>>)
    requires
        v.phase == HookPhase::Freeing,
        0 <= v.next_free < v.allocated_addresses.len(),
        outcomes.len() == v.allocated_addresses.len() - v.next_free,
    ensures
        frees_asked(v, outcomes) == v.allocated_addresses.subrange(
            v.next_free,
            v.allocated_addresses.len() as int,
        ),
        after_frees(v, outcomes).phase == HookPhase::Idle,
        after_frees(v, outcomes).allocated_addresses == v.failed_frees + failures(
            v.allocated_addresses.subrange(v.next_free, v.allocated_addresses.len() as int),
            outcomes,
        ),
    decreases outcomes.len(),
{
    let w = freed(v, outcomes[0]).0;
    let rest = outcomes.drop_first();
    let len = v.allocated_addresses.len() as int;
    let here = v.allocated_addresses.subrange(v.next_free, len);
    let first = if outcomes[0] is Err {
        seq![v.allocated_addresses[v.next_free]]
    } else {
        Seq::<usize>::empty()
    };
    assert(frees_asked(v, outcomes) == seq![v.allocated_addresses[v.next_free]] + frees_asked(w, rest));
    assert(after_frees(v, outcomes) == after_frees(w, rest));
    assert(here.drop_first() =~= v.allocated_addresses.subrange(v.next_free + 1, len));
    assert(failures(here, outcomes) == first + failures(here.drop_first(), rest));
    if v.next_free + 1 < v.allocated_addresses.len() {
        lemma_frees_from(w, rest);
        assert(here =~= seq![v.allocated_addresses[v.next_free]] + v.allocated_addresses.subrange(
            v.next_free + 1,
            len,
        ));
        assert(w.failed_frees == v.failed_frees + first);
        assert(v.failed_frees + first + failures(here.drop_first(), rest) =~= v.failed_frees + (first
            + failures(here.drop_first(), rest)));
    } else {
        assert(rest.len() == 0);
        assert(w.phase == HookPhase::Idle);
        assert(frees_asked(w, rest) == Seq::<usize>::empty());
        assert(here =~= seq![v.allocated_addresses[v.next_free]]);
        assert(failures(here.drop_first(), rest) == Seq::<usize>::empty());
        assert(first + Seq::<usize>::empty() =~= first);
        assert(w.allocated_addresses =~= v.failed_frees + first);
    }
}

/// Once freeing starts, every allocation of the hook is asked to be freed,
/// each once and in order, whatever each free comes to: a failed free does
/// not stop the others. Afterwards the hook is idle and holds exactly the
/// allocations whose free failed.
pub proof fn lemma_every_allocation_freed(v: HookView, outcomes: Seq<Result<(), MemoryError>>)
    requires
        outcomes.len() == v.allocated_addresses.len(),
    ensures
        ({
            let (w, first) = freeing_begun(v);
            &&& v.allocated_addresses.len() > 0 ==> first == Ok::<HookActionView, MemoryError>(
                HookActionView::Free(v.allocated_addresses[0]),
            )
            &&& v.allocated_addresses.len() == 0 ==> first == Ok::<HookActionView, MemoryError>(
                HookActionView::Released,
            )
            &&& frees_asked(w, outcomes) == v.allocated_addresses
            &&& after_frees(w, outcomes).phase == HookPhase::Idle
            &&& after_frees(w, outcomes).allocated_addresses == failures(v.allocated_addresses, outcomes)
        }),
{
    let (w, _) = freeing_begun(v);
    if v.allocated_addresses.len() > 0 {
        lemma_frees_from(w, outcomes);
        assert(v.allocated_addresses.subrange(0, v.allocated_addresses.len() as int) =~= v.allocated_addresses);
        assert(Seq::<usize>::empty() + failures(v.allocated_addresses, outcomes) =~= failures(
            v.allocated_addresses,
            outcomes,
        ));
    } else {
        assert(frees_asked(w, outcomes) == Seq::<usize>::empty());
        assert(v.allocated_addresses =~= Seq::<usize>::empty());
        assert(after_frees(w, outcomes) == w);
    }
}

/// The last free removes the hook. It succeeds only when the hook holds no
/// allocation any more; otherwise it fails with an error that lists exactly
/// the allocations still held, those whose free failed.
pub proof fn lemma_release_reports_held(v: HookView, outcome: Result<(), MemoryError>)
    requires
        v.phase == HookPhase::Freeing,
        v.next_free + 1 == v.allocated_addresses.len(),
    ensures
        ({
            let (w, action) = freed(v, outcome);
            &&& w.phase == HookPhase::Idle
            &&& w.allocated_addresses.len() == 0 ==> action == FreeStep::Next(HookActionView::Released)
            &&& w.allocated_addresses.len() > 0 ==> action == FreeStep::FreesFailed(w.allocated_addresses)
        }),
{
}

} // verus!
