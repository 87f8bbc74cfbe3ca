use titanium::architecture::{Architecture, ByteOrder, PointerWidth};
use titanium::error::MemoryError;
use titanium::image::MemoryImage;
use titanium::manager::MemoryManager;
use titanium::process::{
    find_module, find_process, opened, position_of, select_process, ModuleEntry, ProcessEntry,
    ProcessHandle, ProcessHandleExt, TryIntoProcessHandle,
};

fn arch() -> Architecture {
    Architecture::new(PointerWidth::Bits64, ByteOrder::LittleEndian)
}

/// A process id that opens as the handle with the same number, or not at all.
struct Candidate {
    pid: u32,
    allowed: bool,
}

impl TryIntoProcessHandle for Candidate {
    fn try_into_process_handle(&self) -> Result<ProcessHandle, MemoryError> {
        if self.allowed {
            Ok(ProcessHandle { raw: self.pid as u64, arch: arch() })
        } else {
            Err(MemoryError::ReadFailed { platform_code: 13 })
        }
    }
}

fn entry(pid: u32, name: &str, allowed: bool) -> ProcessEntry<Candidate> {
    ProcessEntry { id: Candidate { pid, allowed }, name: name.to_string() }
}

fn module(name: &str, base: u64) -> ModuleEntry {
    ModuleEntry { name: name.to_string(), base }
}

#[test]
fn position_of_finds_the_first_equal_item() {
    let items = vec!["a".to_string(), "b".to_string(), "a".to_string(), "c".to_string()];
    assert_eq!(position_of(&items, &"a".to_string()), Some(0));
    assert_eq!(position_of(&items, &"b".to_string()), Some(1));
    assert_eq!(position_of(&items, &"c".to_string()), Some(3));
    assert_eq!(position_of(&items, &"A".to_string()), None);
    assert_eq!(position_of(&vec![], &"a".to_string()), None);
}

#[test]
fn select_process_ignores_case() {
    let processes = vec![
        entry(1, "init", true),
        entry(20, "Game.EXE", true),
        entry(21, "game.exe", true),
    ];
    assert_eq!(select_process(&processes, "game.exe"), Some(1));
    assert_eq!(select_process(&processes, "GAME.exe"), Some(1));
    assert_eq!(select_process(&processes, "INIT"), Some(0));
    assert_eq!(select_process(&processes, "game"), None);
    assert_eq!(select_process(&processes, "game.exe "), None);
    assert_eq!(select_process(&processes, ""), None);
}

#[test]
fn find_process_without_a_match_fails() {
    let processes = vec![entry(1, "init", true), entry(2, "shell", true)];
    assert_eq!(find_process(&processes, "dummy"), Err(MemoryError::ProcessNotFound));
    let none: Vec<ProcessEntry<Candidate>> = vec![];
    assert_eq!(find_process(&none, "init"), Err(MemoryError::ProcessNotFound));
}

#[test]
fn find_process_opens_the_first_match() {
    let processes = vec![
        entry(1, "init", true),
        entry(7, "Dummy", true),
        entry(9, "dummy", true),
    ];
    assert_eq!(find_process(&processes, "dummy"), Ok(ProcessHandle { raw: 7, arch: arch() }));
    assert_eq!(find_process(&processes, "DUMMY"), Ok(ProcessHandle { raw: 7, arch: arch() }));
}

#[test]
fn find_process_reports_a_match_that_cannot_be_opened() {
    let processes = vec![entry(7, "dummy", false), entry(9, "dummy", true)];
    assert_eq!(find_process(&processes, "dummy"), Err(MemoryError::AccessDenied));
}

#[test]
fn found_handle_serves_a_read() {
    let handle = ProcessHandle { raw: 3, arch: arch() };
    let processes = vec![ProcessEntry { id: handle.duplicate(), name: "dummy".to_string() }];
    let found = find_process(&processes, "Dummy").unwrap();
    assert_eq!(found, handle);
    assert!(found.check_handle());
    let image = MemoryImage::new(0x100, vec![4, 0, 0, 0], found.arch);
    let manager = MemoryManager { raw: image };
    assert_eq!(manager.read(0x100, 4), Ok(vec![4, 0, 0, 0]));
}

#[test]
fn opened_maps_every_failure_to_access_denied() {
    let handle = ProcessHandle { raw: 11, arch: arch() };
    assert_eq!(opened(Ok(handle.duplicate())), Ok(handle));
    assert_eq!(opened(Err(MemoryError::ProcessNotFound)), Err(MemoryError::AccessDenied));
    assert_eq!(
        opened(Err(MemoryError::ReadFailed { platform_code: 5 })),
        Err(MemoryError::AccessDenied)
    );
}

#[test]
fn process_handle_helpers() {
    let null = ProcessHandle::null_type();
    assert!(!null.check_handle());
    assert_eq!(null.raw, 0);
    assert_eq!(null.arch.byte_width(), std::mem::size_of::<usize>());
    let handle = ProcessHandle { raw: 0x44, arch: arch() };
    assert!(handle.check_handle());
    assert_eq!(handle.try_into_process_handle(), Ok(ProcessHandle { raw: 0x44, arch: arch() }));
    let narrow = Architecture::new(PointerWidth::Bits32, ByteOrder::BigEndian);
    let changed = handle.set_arch(narrow);
    assert_eq!(changed, ProcessHandle { raw: 0x44, arch: narrow });
}

#[test]
fn find_module_returns_the_base_of_the_first_match() {
    let modules = vec![
        module("dummy.exe", 0x40_0000),
        module("KERNEL32.DLL", 0x7ffa_1000_0000),
        module("kernel32.dll", 0x1),
    ];
    assert_eq!(find_module(&modules, "kernel32.dll"), Ok(0x7ffa_1000_0000));
    assert_eq!(find_module(&modules, "Dummy.Exe"), Ok(0x40_0000));
    assert_eq!(find_module(&modules, "user32.dll"), Err(MemoryError::ModuleNotFound));
    assert_eq!(find_module(&vec![], "kernel32.dll"), Err(MemoryError::ModuleNotFound));
}

/// The memory of the process behind a handle: four bytes at 0x1000 that
/// all hold the low byte of the handle.
fn memory_of(handle: ProcessHandle) -> MemoryImage {
    MemoryImage::new(0x1000, vec![handle.raw as u8; 4], handle.arch)
}

#[test]
fn manager_opens_the_first_process_of_the_name() {
    let processes = vec![
        entry(3, "other", true),
        entry(1, "Target.exe", true),
        entry(2, "target.exe", true),
    ];
    let manager = MemoryManager::new("TARGET.EXE", &processes, memory_of).ok().unwrap();
    assert_eq!(manager.read(0x1000, 4), Ok(vec![1, 1, 1, 1]));
    assert_eq!(manager.raw.arch, arch());
}

#[test]
fn manager_fails_without_a_process_of_the_name() {
    let processes = vec![entry(3, "other", true)];
    let r = MemoryManager::new("target.exe", &processes, memory_of);
    assert_eq!(r.err(), Some(MemoryError::ProcessNotFound));
    let none: Vec<ProcessEntry<Candidate>> = vec![];
    assert_eq!(
        MemoryManager::new("target.exe", &none, memory_of).err(),
        Some(MemoryError::ProcessNotFound)
    );
}

#[test]
fn manager_reports_a_process_that_cannot_be_opened() {
    let processes = vec![entry(1, "target.exe", false), entry(2, "target.exe", true)];
    let r = MemoryManager::new("target.exe", &processes, memory_of);
    assert_eq!(r.err(), Some(MemoryError::AccessDenied));
}

#[test]
fn manager_reads_and_writes() {
    let mut manager = MemoryManager { raw: MemoryImage::new(0x2000, vec![0u8; 16], arch()) };
    assert_eq!(manager.write(0x2004, &6u32.to_le_bytes()), Ok(()));
    assert_eq!(manager.read(0x2004, 4), Ok(vec![6, 0, 0, 0]));
    assert_eq!(manager.read(0x2000, 4), Ok(vec![0, 0, 0, 0]));
    assert_eq!(manager.read(0x2000, 0), Ok(vec![]));
    assert_eq!(manager.write(0x9000, &[]), Ok(()));
    assert_eq!(manager.read(0x200e, 4), Err(MemoryError::ReadFailed { platform_code: 14 }));
    assert_eq!(manager.write(0x1fff, &[1]), Err(MemoryError::WriteFailed { platform_code: 14 }));
    let mut high = MemoryManager { raw: MemoryImage::new(0x7ffa_0000_0000, vec![0u8; 4], arch()) };
    assert_eq!(high.write(0x7ffa_0000_0002, &[8, 9]), Ok(()));
    assert_eq!(high.read(0x7ffa_0000_0000, 4), Ok(vec![0, 0, 8, 9]));
}

#[test]
fn manager_finds_module_addresses() {
    let manager = MemoryManager { raw: MemoryImage::new(0, vec![], arch()) };
    let modules = vec![
        module("client.dll", 0x5_1234_5678),
        module("engine.dll", 0x1000_0000),
        module("high.dll", u64::MAX),
        module("Client.dll", 0x1),
    ];
    assert_eq!(manager.get_module_address("high.dll", &modules), Ok(u64::MAX));
    assert_eq!(manager.get_module_address("Engine.dll", &modules), Ok(0x1000_0000));
    assert_eq!(manager.get_module_address("client.dll", &modules), Ok(0x5_1234_5678));
    assert_eq!(manager.get_module_address("CLIENT.DLL", &modules), Ok(0x5_1234_5678));
    assert_eq!(
        manager.get_module_address("server.dll", &modules),
        Err(MemoryError::ModuleNotFound)
    );
}

#[test]
fn manager_reads_the_local_space() {
    let local = MemoryImage::new(0x7000_0000_0000, vec![5, 6, 7, 8], arch());
    assert_eq!(
        MemoryManager::<MemoryImage>::read_raw(&local, 0x7000_0000_0001, 2),
        Ok(vec![6, 7])
    );
    assert_eq!(
        MemoryManager::<MemoryImage>::read_raw(&local, 0x7000_0000_0004, 1),
        Err(MemoryError::ReadFailed { platform_code: 14 })
    );
}
