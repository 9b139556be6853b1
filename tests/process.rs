use wizwalker::access::{
    allocate_result, free_result, read_bytes_result, write_bytes_result, ModuleInfo, Outcome,
};
use wizwalker::error::MemoryError;
use wizwalker::modules::{module_from_name, LoadedModule};
use wizwalker::hook::{jump_address_from_scan, HookAction, HookDefinition, HookPhase, MemoryHook, HOOK_SIZE};
use wizwalker::scan::{
    is_scannable, select_matches, PatternScan, RegionInfo, MEM_COMMIT, PAGE_EXECUTE_READ, PAGE_READONLY,
    PAGE_READWRITE, SCAN_CEILING,
};

const MEM_RESERVE: u32 = 0x2000;
const MEM_FREE: u32 = 0x10000;
const PAGE_NOACCESS: u32 = 0x01;
const PAGE_GUARD: u32 = 0x100;

const PATTERN: &str = r"(?-u)\x48\x8B\xC4\x55";
const CODE: [u8; 4] = [0x48, 0x8B, 0xC4, 0x55];

struct Region {
    base: usize,
    state: u32,
    protect: u32,
    bytes: Vec<u8>,
}

/// A target process held in memory: its regions, its modules and what was
/// done to it.
struct FakeProcess {
    regions: Vec<Region>,
    modules: Vec<LoadedModule>,
    exit_code: u32,
    next_alloc: usize,
    fail_free: Vec<usize>,
    freed: Vec<usize>,
}

impl FakeProcess {
    fn new() -> Self {
        FakeProcess {
            regions: Vec::new(),
            modules: Vec::new(),
            exit_code: 259,
            next_alloc: 0x5000_0000,
            fail_free: Vec::new(),
            freed: Vec::new(),
        }
    }

    fn map(&mut self, base: usize, size: usize, state: u32, protect: u32) {
        self.regions.push(Region { base, state, protect, bytes: vec![0xCC; size] });
        self.regions.sort_by_key(|r| r.base);
    }

    fn poke(&mut self, address: usize, bytes: &[u8]) {
        let r = self.regions.iter_mut().find(|r| r.base <= address && address < r.base + r.bytes.len()).unwrap();
        let at = address - r.base;
        r.bytes[at..at + bytes.len()].copy_from_slice(bytes);
    }

    fn peek(&self, address: usize, size: usize) -> Vec<u8> {
        let r = self.regions.iter().find(|r| r.base <= address && address < r.base + r.bytes.len()).unwrap();
        let at = address - r.base;
        r.bytes[at..at + size].to_vec()
    }

    fn query(&self, address: usize) -> Option<RegionInfo> {
        if address as u64 >= SCAN_CEILING {
            return None;
        }
        for r in &self.regions {
            if r.base <= address && address < r.base + r.bytes.len() {
                return Some(RegionInfo { base: r.base, size: r.bytes.len(), state: r.state, protect: r.protect });
            }
        }
        let next = self.regions.iter().map(|r| r.base).filter(|b| *b > address).min().unwrap_or(SCAN_CEILING as usize);
        Some(RegionInfo { base: address, size: next - address, state: MEM_FREE, protect: PAGE_NOACCESS })
    }

    fn readable(&self, address: usize, size: usize) -> Option<&Region> {
        self.regions.iter().find(|r| {
            r.base <= address && address + size <= r.base + r.bytes.len() && r.state == MEM_COMMIT
        })
    }

    fn read(&self, address: usize, size: usize) -> Outcome<Vec<u8>> {
        match self.readable(address, size) {
            Some(r) => Outcome::Done(r.bytes[address - r.base..address - r.base + size].to_vec()),
            None => Outcome::Failed { exit_code: self.exit_code },
        }
    }

    fn write(&mut self, address: usize, bytes: &[u8]) -> Outcome<usize> {
        if self.readable(address, bytes.len()).is_none() {
            return Outcome::Failed { exit_code: self.exit_code };
        }
        self.poke(address, bytes);
        Outcome::Done(bytes.len())
    }

    fn allocate(&mut self, size: usize) -> usize {
        let base = self.next_alloc;
        self.next_alloc += 0x1_0000;
        self.map(base, size, MEM_COMMIT, PAGE_READWRITE);
        base
    }

    fn free(&mut self, address: usize) -> bool {
        self.freed.push(address);
        if self.fail_free.contains(&address) {
            return false;
        }
        match self.regions.iter().position(|r| r.base == address) {
            Some(i) => {
                self.regions.remove(i);
                true
            }
            None => false,
        }
    }

    fn module(&self, name: &str) -> Option<ModuleInfo> {
        module_from_name(&self.modules, name)
    }

    fn read_bytes(&self, address: usize, size: usize) -> Result<Vec<u8>, MemoryError> {
        read_bytes_result(address, size, self.read(address, size))
    }

    fn write_bytes(&mut self, address: usize, bytes: &[u8]) -> Result<(), MemoryError> {
        let outcome = self.write(address, bytes);
        write_bytes_result(address, bytes.len(), outcome)
    }
}

/// The game image: a module at 0x10000 of two regions, code and data.
fn game() -> FakeProcess {
    let mut p = FakeProcess::new();
    p.map(0x10000, 0x1000, MEM_COMMIT, PAGE_EXECUTE_READ);
    p.map(0x11000, 0x1000, MEM_COMMIT, PAGE_READWRITE);
    p.modules.push(LoadedModule { name: "Game.exe".to_string(), info: ModuleInfo { base: 0x10000, size: 0x2000 } });
    p
}

fn run_scan(p: &FakeProcess, mut scan: PatternScan) -> Result<Vec<usize>, MemoryError> {
    while let Some(address) = scan.next_query() {
        let region = p.query(address).ok_or(MemoryError::QueryFailed(address))?;
        if let Some((start, len)) = scan.on_region(region)? {
            scan.on_region_bytes(p.read_bytes(start, len))?;
        }
    }
    scan.finish()
}

fn pattern_scan(p: &FakeProcess, pattern: &str, module: Option<&str>, return_multiple: bool) -> Result<Vec<usize>, MemoryError> {
    match module {
        Some(name) => match p.module(name) {
            Some(info) => run_scan(p, PatternScan::within_module(pattern, info, return_multiple)),
            None => Err(MemoryError::ModuleNotLoaded(name.to_string())),
        },
        None => run_scan(p, PatternScan::whole_process(pattern, return_multiple)),
    }
}

#[test]
fn write_then_read_round_trip() {
    let mut p = game();
    let bytes = vec![1u8, 2, 3, 4, 5, 250];
    p.write_bytes(0x11010, &bytes).unwrap();
    assert_eq!(p.read_bytes(0x11010, bytes.len()), Ok(bytes));
}

#[test]
fn read_of_exited_process() {
    let mut p = game();
    p.exit_code = 0;
    assert_eq!(p.read_bytes(0x9000_0000, 4), Err(MemoryError::ProcessNotRunning));
}

#[test]
fn scan_single_occurrence() {
    let mut p = game();
    p.poke(0x10100, &CODE);
    assert_eq!(pattern_scan(&p, PATTERN, None, false), Ok(vec![0x10100]));
    assert_eq!(pattern_scan(&p, PATTERN, Some("game.exe"), false), Ok(vec![0x10100]));
}

#[test]
fn scan_without_occurrence() {
    let p = game();
    assert_eq!(pattern_scan(&p, PATTERN, None, false), Err(MemoryError::PatternNotFound(PATTERN.to_string())));
    assert_eq!(pattern_scan(&p, PATTERN, None, true), Err(MemoryError::PatternNotFound(PATTERN.to_string())));
}

#[test]
fn scan_with_several_occurrences_is_ambiguous() {
    let mut p = game();
    p.poke(0x10100, &CODE);
    p.poke(0x11200, &CODE);
    assert_eq!(pattern_scan(&p, PATTERN, None, false), Err(MemoryError::AmbiguousPattern(PATTERN.to_string(), 2)));
    p.poke(0x10800, &CODE);
    assert_eq!(pattern_scan(&p, PATTERN, None, false), Err(MemoryError::AmbiguousPattern(PATTERN.to_string(), 3)));
}

#[test]
fn scan_returning_every_match_in_address_order() {
    let mut p = game();
    p.map(0x40000, 0x100, MEM_COMMIT, PAGE_READONLY);
    p.poke(0x40010, &CODE);
    p.poke(0x11200, &CODE);
    p.poke(0x10100, &CODE);
    p.poke(0x10800, &CODE);
    assert_eq!(pattern_scan(&p, PATTERN, None, true), Ok(vec![0x10100, 0x10800, 0x11200, 0x40010]));
}

#[test]
fn scan_skips_regions_not_committed_or_not_readable() {
    let mut p = game();
    p.map(0x20000, 0x100, MEM_RESERVE, PAGE_READWRITE);
    p.map(0x30000, 0x100, MEM_COMMIT, PAGE_READWRITE | PAGE_GUARD);
    p.map(0x38000, 0x100, MEM_COMMIT, PAGE_NOACCESS);
    p.poke(0x20010, &CODE);
    p.poke(0x30010, &CODE);
    p.poke(0x38010, &CODE);
    p.poke(0x10100, &CODE);
    assert_eq!(pattern_scan(&p, PATTERN, None, true), Ok(vec![0x10100]));
}

#[test]
fn module_scan_stays_inside_the_module() {
    let mut p = game();
    p.map(0x40000, 0x100, MEM_COMMIT, PAGE_READONLY);
    p.poke(0x40010, &CODE);
    p.poke(0x11200, &CODE);
    assert_eq!(pattern_scan(&p, PATTERN, Some("Game.exe"), false), Ok(vec![0x11200]));
    assert_eq!(pattern_scan(&p, PATTERN, Some("Game.exe"), true), Ok(vec![0x11200]));
    assert_eq!(pattern_scan(&p, PATTERN, Some("other.dll"), false), Err(MemoryError::ModuleNotLoaded("other.dll".to_string())));
}

#[test]
fn invalid_pattern() {
    let p = game();
    let bad = r"(?-u)\x48(";
    assert_eq!(pattern_scan(&p, bad, None, false), Err(MemoryError::InvalidPattern(bad.to_string())));
}

#[test]
fn region_description_must_hold_the_cursor() {
    let mut scan = PatternScan::whole_process(PATTERN, false);
    assert_eq!(scan.next_query(), Some(0));
    let wrong = RegionInfo { base: 0x1000, size: 0x1000, state: MEM_COMMIT, protect: PAGE_READONLY };
    assert_eq!(scan.on_region(wrong), Err(MemoryError::QueryFailed(0)));
    let empty = RegionInfo { base: 0, size: 0, state: MEM_COMMIT, protect: PAGE_READONLY };
    assert_eq!(scan.on_region(empty), Err(MemoryError::QueryFailed(0)));
}

#[test]
fn region_read_is_bounded_by_the_module() {
    let info = ModuleInfo { base: 0x10000, size: 0x800 };
    let mut scan = PatternScan::within_module(PATTERN, info, false);
    assert_eq!(scan.next_query(), Some(0x10000));
    let region = RegionInfo { base: 0x10000, size: 0x1000, state: MEM_COMMIT, protect: PAGE_EXECUTE_READ };
    assert_eq!(scan.on_region(region), Ok(Some((0x10000, 0x800))));
    assert!(scan.awaiting_bytes());
    assert_eq!(scan.on_region_bytes(Ok(vec![0u8; 0x10])), Err(MemoryError::ReadFailed(0x10000)));
    let mut bytes = vec![0u8; 0x800];
    bytes[0x20..0x24].copy_from_slice(&CODE);
    assert_eq!(scan.on_region_bytes(Ok(bytes)), Ok(()));
    assert_eq!(scan.next_query(), None);
    assert_eq!(scan.finish(), Ok(vec![0x10020]));
}

#[test]
fn scannable_protections() {
    let r = |state, protect| RegionInfo { base: 0, size: 1, state, protect };
    assert!(is_scannable(&r(MEM_COMMIT, PAGE_READONLY)));
    assert!(is_scannable(&r(MEM_COMMIT, PAGE_READWRITE)));
    assert!(is_scannable(&r(MEM_COMMIT, PAGE_EXECUTE_READ)));
    assert!(is_scannable(&r(MEM_COMMIT, 0x40)));
    assert!(!is_scannable(&r(MEM_COMMIT, 0x10)));
    assert!(!is_scannable(&r(MEM_COMMIT, PAGE_READWRITE | PAGE_GUARD)));
    assert!(!is_scannable(&r(MEM_RESERVE, PAGE_READWRITE)));
}

#[test]
fn result_policy() {
    let p = "pat".to_string();
    assert_eq!(select_matches(p.clone(), vec![], false), Err(MemoryError::PatternNotFound(p.clone())));
    assert_eq!(select_matches(p.clone(), vec![7], false), Ok(vec![7]));
    assert_eq!(select_matches(p.clone(), vec![7], true), Ok(vec![7]));
    assert_eq!(select_matches(p.clone(), vec![7, 9], false), Err(MemoryError::AmbiguousPattern(p.clone(), 2)));
    assert_eq!(select_matches(p.clone(), vec![7, 9], true), Ok(vec![7, 9]));
}

#[test]
fn jump_address_from_scan_results() {
    assert_eq!(jump_address_from_scan(&"p".to_string(), Ok(vec![0x10, 0x20])), Ok(0x10));
    assert_eq!(jump_address_from_scan(&"p".to_string(), Ok(vec![])), Err(MemoryError::JumpAddressNotFound("p".to_string())));
    assert_eq!(
        jump_address_from_scan(&"p".to_string(), Err(MemoryError::PatternNotFound("p".to_string()))),
        Err(MemoryError::JumpAddressNotFound("p".to_string()))
    );
    assert_eq!(
        jump_address_from_scan(&"p".to_string(), Err(MemoryError::AmbiguousPattern("p".to_string(), 2))),
        Err(MemoryError::AmbiguousPattern("p".to_string(), 2))
    );
}

/// A hook that jumps from the game's code to a stub of no-ops.
struct NopHook;

impl HookDefinition for NopHook {
    fn get_pattern(&self) -> (String, String) {
        (PATTERN.to_string(), "Game.exe".to_string())
    }

    fn get_jump_bytecode(&self, jump_address: usize, hook_address: usize) -> Vec<u8> {
        let rel = (hook_address as i64 - jump_address as i64 - 5) as i32;
        let mut b = vec![0xE9];
        b.extend_from_slice(&rel.to_le_bytes());
        b
    }

    fn get_hook_bytecode(&self, _jump_address: usize, _hook_address: usize) -> Vec<u8> {
        vec![0x90; 8]
    }
}

fn install(p: &mut FakeProcess, hook: &mut MemoryHook, def: &NopHook) -> Result<(), MemoryError> {
    let (pattern, module) = def.get_pattern();
    let mut action = hook.hook(pattern, module);
    loop {
        action = match action {
            HookAction::Scan { pattern, module } => hook.on_jump_scan(pattern_scan(p, &pattern, Some(&module), false))?,
            HookAction::Allocate(size) => hook.on_hook_allocated(allocate_result(p.allocate(size)))?,
            HookAction::Bytecode { jump_address, hook_address } => hook.on_bytecode(
                def.get_hook_bytecode(jump_address, hook_address),
                def.get_jump_bytecode(jump_address, hook_address),
            ),
            HookAction::Read { address, size } => hook.on_original_read(p.read_bytes(address, size))?,
            HookAction::PreHook => {
                def.prehook();
                hook.on_prehook_done()
            }
            HookAction::Write { address, bytes } => {
                let written = p.write_bytes(address, &bytes);
                match hook.phase() {
                    HookPhase::WritingStub => hook.on_stub_written(written)?,
                    _ => hook.on_jump_written(written)?,
                }
            }
            HookAction::PostHook => {
                def.posthook();
                return Ok(());
            }
            other => panic!("unexpected {:?}", other),
        }
    }
}

fn uninstall(p: &mut FakeProcess, hook: &mut MemoryHook) -> Result<(), MemoryError> {
    let mut action = hook.unhook()?;
    loop {
        action = match action {
            HookAction::Write { address, bytes } => hook.on_restored(p.write_bytes(address, &bytes))?,
            HookAction::Free(address) => {
                let released = p.free(address);
                hook.on_freed(free_result(address, released))?
            }
            HookAction::Released => return Ok(()),
            other => panic!("unexpected {:?}", other),
        }
    }
}

#[test]
fn hook_installs_stub_and_jump() {
    let mut p = game();
    p.poke(0x10100, &[0x48, 0x8B, 0xC4, 0x55, 0x41, 0x54]);
    let mut hook = MemoryHook::new();
    install(&mut p, &mut hook, &NopHook).unwrap();
    assert_eq!(hook.phase(), HookPhase::Installed);
    assert_eq!(hook.jump_address(), 0x10100);
    let stub = hook.hook_address();
    assert_eq!(hook.allocated_addresses(), &vec![stub]);
    assert_eq!(p.peek(stub, 8), vec![0x90; 8]);
    let jump = NopHook.get_jump_bytecode(0x10100, stub);
    assert_eq!(p.peek(0x10100, 5), jump);
    assert_eq!(hook.jump_bytecode(), &jump);
    assert_eq!(hook.jump_original_bytecode(), &vec![0x48, 0x8B, 0xC4, 0x55, 0x41]);
    assert_eq!(p.peek(stub, HOOK_SIZE).len(), HOOK_SIZE);
}

#[test]
fn hook_then_unhook_restores_original_bytes() {
    let mut p = game();
    let original = [0x48, 0x8B, 0xC4, 0x55, 0x41, 0x54];
    p.poke(0x10100, &original);
    let before = p.peek(0x10100, 16);
    let mut hook = MemoryHook::new();
    install(&mut p, &mut hook, &NopHook).unwrap();
    assert_ne!(p.peek(0x10100, 16), before);
    let stub = hook.hook_address();
    assert_eq!(uninstall(&mut p, &mut hook), Ok(()));
    assert_eq!(p.peek(0x10100, 16), before);
    assert_eq!(p.freed, vec![stub]);
    assert_eq!(hook.phase(), HookPhase::Idle);
    assert!(hook.allocated_addresses().is_empty());
}

#[test]
fn unhook_frees_every_allocation_despite_a_failure() {
    let mut p = game();
    p.poke(0x10100, &CODE);
    let mut hook = MemoryHook::new();
    install(&mut p, &mut hook, &NopHook).unwrap();
    let extra1 = hook.track_allocation(allocate_result(p.allocate(16))).unwrap();
    let extra2 = hook.track_allocation(allocate_result(p.allocate(16))).unwrap();
    assert_eq!(hook.track_allocation(Err(MemoryError::AllocationFailed)), Err(MemoryError::AllocationFailed));
    let stub = hook.hook_address();
    assert_eq!(hook.allocated_addresses(), &vec![stub, extra1, extra2]);
    p.fail_free.push(extra1);
    assert_eq!(uninstall(&mut p, &mut hook), Err(MemoryError::FreesFailed(vec![extra1])));
    assert_eq!(p.freed, vec![stub, extra1, extra2]);
    assert_eq!(hook.allocated_addresses(), &vec![extra1]);
}

#[test]
fn hook_without_jump_address() {
    let mut p = game();
    let mut hook = MemoryHook::new();
    assert_eq!(install(&mut p, &mut hook, &NopHook), Err(MemoryError::JumpAddressNotFound(PATTERN.to_string())));
    assert_eq!(hook.phase(), HookPhase::Idle);
    assert!(hook.allocated_addresses().is_empty());
    assert_eq!(uninstall(&mut p, &mut hook), Ok(()));
    assert!(p.freed.is_empty());
}

#[test]
fn failed_stub_write_keeps_the_allocation_for_cleanup() {
    let mut p = game();
    p.poke(0x10100, &CODE);
    let mut hook = MemoryHook::new();
    let mut action = hook.hook(PATTERN.to_string(), "Game.exe".to_string());
    action = match action {
        HookAction::Scan { pattern, module } => hook.on_jump_scan(pattern_scan(&p, &pattern, Some(&module), false)).unwrap(),
        other => panic!("unexpected {:?}", other),
    };
    assert!(matches!(action, HookAction::Allocate(HOOK_SIZE)));
    let stub = p.allocate(HOOK_SIZE);
    let action = hook.on_hook_allocated(Ok(stub)).unwrap();
    assert!(matches!(action, HookAction::Bytecode { jump_address: 0x10100, hook_address } if hook_address == stub));
    let action = hook.on_bytecode(vec![0x90; 4], vec![0xE9, 0, 0, 0, 0]);
    assert!(matches!(action, HookAction::Read { address: 0x10100, size: 5 }));
    let action = hook.on_original_read(p.read_bytes(0x10100, 5)).unwrap();
    assert!(matches!(action, HookAction::PreHook));
    let action = hook.on_prehook_done();
    assert!(matches!(action, HookAction::Write { address, .. } if address == stub));
    assert_eq!(hook.on_stub_written(Err(MemoryError::WriteFailed(stub))), Err(MemoryError::WriteFailed(stub)));
    assert_eq!(hook.phase(), HookPhase::Idle);
    assert_eq!(hook.allocated_addresses(), &vec![stub]);
    assert_eq!(uninstall(&mut p, &mut hook), Ok(()));
    assert_eq!(p.freed, vec![stub]);
}

#[test]
fn short_original_read_fails_the_install() {
    let mut hook = MemoryHook::new();
    hook.hook(PATTERN.to_string(), "Game.exe".to_string());
    hook.on_jump_scan(Ok(vec![0x10100])).unwrap();
    hook.on_hook_allocated(Ok(0x5000_0000)).unwrap();
    hook.on_bytecode(vec![0x90], vec![0xE9, 0, 0, 0, 0]);
    assert_eq!(hook.on_original_read(Ok(vec![1, 2])), Err(MemoryError::ReadFailed(0x10100)));
    assert_eq!(hook.phase(), HookPhase::Idle);
}

#[test]
fn hook_cache() {
    let mut hook = MemoryHook::new();
    assert!(!hook.is_cached("player_base"));
    assert_eq!(hook.get_cached("player_base"), None);
    hook.cache("player_base".to_string(), 0x1234);
    assert!(hook.is_cached("player_base"));
    assert_eq!(hook.get_cached("player_base"), Some(0x1234));
    hook.cache("player_base".to_string(), 0x5678);
    assert_eq!(hook.get_cached("player_base"), Some(0x5678));
    assert_eq!(hook.get_cached("other"), None);
}

#[test]
fn empty_match_at_region_end_is_not_recorded() {
    let info = ModuleInfo { base: 0x10000, size: 0x20 };
    let mut scan = PatternScan::within_module(r"(?-u)\xCC*", info, true);
    let region = RegionInfo { base: 0x10000, size: 0x10, state: MEM_COMMIT, protect: PAGE_READONLY };
    assert_eq!(scan.on_region(region), Ok(Some((0x10000, 0x10))));
    assert_eq!(scan.on_region_bytes(Ok(vec![0xCC; 0x10])), Ok(()));
    let next = RegionInfo { base: 0x10010, size: 0x10, state: MEM_COMMIT, protect: PAGE_READONLY };
    assert_eq!(scan.on_region(next), Ok(Some((0x10010, 0x10))));
    assert_eq!(scan.on_region_bytes(Ok(vec![0xCC; 0x10])), Ok(()));
    assert_eq!(scan.next_query(), None);
    assert_eq!(scan.finish(), Ok(vec![0x10000, 0x10010]));
}

#[test]
fn failed_frees_are_reported_and_can_be_retried() {
    let mut p = game();
    p.poke(0x10100, &CODE);
    let mut hook = MemoryHook::new();
    install(&mut p, &mut hook, &NopHook).unwrap();
    let extra = hook.track_allocation(allocate_result(p.allocate(16))).unwrap();
    let stub = hook.hook_address();
    p.fail_free.push(stub);
    p.fail_free.push(extra);
    assert_eq!(uninstall(&mut p, &mut hook), Err(MemoryError::FreesFailed(vec![stub, extra])));
    assert_eq!(p.freed, vec![stub, extra]);
    assert_eq!(hook.phase(), HookPhase::Idle);
    assert!(!hook.is_patched());
    assert_eq!(hook.allocated_addresses(), &vec![stub, extra]);
    p.fail_free.clear();
    assert_eq!(uninstall(&mut p, &mut hook), Ok(()));
    assert_eq!(p.freed, vec![stub, extra, stub, extra]);
    assert!(hook.allocated_addresses().is_empty());
}
