use wizwalker::access::ModuleInfo;
use wizwalker::error::MemoryError;
use wizwalker::reader::{module_file_path, resolve_symbol_address, MemoryReader};
use wizwalker::symbols::{export_entry_checked, SymbolTable};

fn put_u16(image: &mut [u8], at: usize, v: u16) {
    image[at..at + 2].copy_from_slice(&v.to_le_bytes());
}

fn put_u32(image: &mut [u8], at: usize, v: u32) {
    image[at..at + 4].copy_from_slice(&v.to_le_bytes());
}

fn put_u64(image: &mut [u8], at: usize, v: u64) {
    image[at..at + 8].copy_from_slice(&v.to_le_bytes());
}

/// A PE32+ image of 0x400 bytes, headers and one section at 0x200 whose
/// addresses are its file offsets, preferring the base 0x1_8000_0000, that exports `AddNumbers` at 0x1010, `Beta` at 0x2020 and
/// `Forwarded` as a forward to another module.
fn fixture_image() -> Vec<u8> {
    let mut image = vec![0u8; 0x400];
    image[0] = b'M';
    image[1] = b'Z';
    put_u32(&mut image, 0x3C, 0x40);
    image[0x40..0x44].copy_from_slice(b"PE\0\0");
    put_u16(&mut image, 0x44, 0x8664);
    put_u16(&mut image, 0x46, 1);
    put_u16(&mut image, 0x54, 0xF0);
    put_u16(&mut image, 0x56, 0x2022);
    let opt = 0x58;
    put_u16(&mut image, opt, 0x20B);
    put_u64(&mut image, opt + 24, 0x1_8000_0000);
    put_u32(&mut image, opt + 32, 0x1000);
    put_u32(&mut image, opt + 36, 0x200);
    put_u32(&mut image, opt + 56, 0x3000);
    put_u32(&mut image, opt + 60, 0x200);
    put_u32(&mut image, opt + 108, 16);
    put_u32(&mut image, opt + 112, 0x200);
    put_u32(&mut image, opt + 116, 0x200);
    let section = 0x148;
    image[section..section + 6].copy_from_slice(b".edata");
    put_u32(&mut image, section + 8, 0x200);
    put_u32(&mut image, section + 12, 0x200);
    put_u32(&mut image, section + 16, 0x200);
    put_u32(&mut image, section + 20, 0x200);
    put_u32(&mut image, section + 36, 0x4000_0040);
    let dir = 0x200;
    put_u32(&mut image, dir + 12, 0x300);
    put_u32(&mut image, dir + 16, 1);
    put_u32(&mut image, dir + 20, 3);
    put_u32(&mut image, dir + 24, 3);
    put_u32(&mut image, dir + 28, 0x240);
    put_u32(&mut image, dir + 32, 0x260);
    put_u32(&mut image, dir + 36, 0x280);
    put_u32(&mut image, 0x240, 0x1010);
    put_u32(&mut image, 0x244, 0x2020);
    put_u32(&mut image, 0x248, 0x380);
    put_u32(&mut image, 0x260, 0x310);
    put_u32(&mut image, 0x264, 0x320);
    put_u32(&mut image, 0x268, 0x330);
    put_u16(&mut image, 0x280, 0);
    put_u16(&mut image, 0x282, 1);
    put_u16(&mut image, 0x284, 2);
    for (at, s) in [(0x300, "fixture.dll"), (0x310, "AddNumbers"), (0x320, "Beta"), (0x330, "Forwarded"), (0x380, "OTHER.Func")] {
        image[at..at + s.len()].copy_from_slice(s.as_bytes());
    }
    image
}

fn fixture_table() -> SymbolTable {
    let mut reader = MemoryReader::new();
    reader.load_symbols("C:\\fixture.dll", &fixture_image()).unwrap()
}

#[test]
fn export_table_of_fixture() {
    let table = fixture_table();
    assert_eq!(table.get("AddNumbers"), Some(&0x1010));
    assert_eq!(table.get("Beta"), Some(&0x2020));
    assert_eq!(table.get("Missing"), None);
}

#[test]
fn forwarded_export_has_no_offset() {
    let table = fixture_table();
    assert!(!table.contains("Forwarded"));
}

#[test]
fn invalid_image_is_a_parse_error() {
    let mut reader = MemoryReader::new();
    let r = reader.load_symbols("C:\\bad.dll", &vec![0u8; 64]);
    assert!(matches!(r, Err(MemoryError::ParseError(p)) if p == "C:\\bad.dll"));
    assert!(reader.cached_symbols("C:\\bad.dll", false).is_none());
}

/// Gets the symbols of `path` as a caller would, counting how often the
/// image is parsed.
fn get_symbols(reader: &mut MemoryReader, path: &str, force_reload: bool, parses: &mut usize) -> SymbolTable {
    match reader.cached_symbols(path, force_reload) {
        Some(table) => table,
        None => {
            *parses += 1;
            reader.load_symbols(path, &fixture_image()).unwrap()
        }
    }
}

#[test]
fn symbols_are_cached_until_a_forced_reload() {
    let mut reader = MemoryReader::new();
    let mut parses = 0usize;
    let first = get_symbols(&mut reader, "C:\\fixture.dll", false, &mut parses);
    assert_eq!(parses, 1);
    let second = get_symbols(&mut reader, "C:\\fixture.dll", false, &mut parses);
    let third = get_symbols(&mut reader, "C:\\fixture.dll", false, &mut parses);
    assert_eq!(parses, 1);
    for name in ["AddNumbers", "Beta", "Forwarded", "Missing"] {
        assert_eq!(first.get(name), second.get(name));
        assert_eq!(first.get(name), third.get(name));
    }
    get_symbols(&mut reader, "C:\\fixture.dll", true, &mut parses);
    assert_eq!(parses, 2);
    get_symbols(&mut reader, "C:\\fixture.dll", true, &mut parses);
    assert_eq!(parses, 3);
    get_symbols(&mut reader, "C:\\other.dll", false, &mut parses);
    assert_eq!(parses, 4);
}

#[test]
fn symbol_address_uses_the_live_base() {
    let table = fixture_table();
    let live = ModuleInfo { base: 0x7FF6_1234_0000, size: 0x3000 };
    assert_ne!(live.base, 0x1_8000_0000);
    let r = resolve_symbol_address("fixture.dll", "AddNumbers", &table, Some(live));
    assert_eq!(r, Ok(0x7FF6_1234_1010));
    let r = resolve_symbol_address("fixture.dll", "Beta", &table, Some(live));
    assert_eq!(r, Ok(0x7FF6_1234_2020));
}

#[test]
fn symbol_not_found() {
    let table = fixture_table();
    let live = ModuleInfo { base: 0x7FF6_0000_0000, size: 0x3000 };
    assert_eq!(
        resolve_symbol_address("fixture.dll", "Nope", &table, Some(live)),
        Err(MemoryError::SymbolNotFound("fixture.dll".to_string(), "Nope".to_string()))
    );
}

#[test]
fn module_not_loaded() {
    let table = fixture_table();
    assert_eq!(
        resolve_symbol_address("fixture.dll", "Beta", &table, None),
        Err(MemoryError::ModuleNotLoaded("fixture.dll".to_string()))
    );
}

#[test]
fn symbol_address_overflow() {
    let table = fixture_table();
    let live = ModuleInfo { base: usize::MAX - 0x10, size: 0x10 };
    assert_eq!(
        resolve_symbol_address("fixture.dll", "Beta", &table, Some(live)),
        Err(MemoryError::OutOfRange(usize::MAX - 0x10))
    );
}

#[test]
fn module_file_paths() {
    assert_eq!(module_file_path("C:\\Windows\\System32", "kernel32.dll"), "C:\\Windows\\System32\\kernel32.dll");
    assert_eq!(module_file_path("C:\\Windows\\System32\\", "kernel32.dll"), "C:\\Windows\\System32\\kernel32.dll");
    assert_eq!(module_file_path("dlls/", "a.dll"), "dlls/a.dll");
    assert_eq!(module_file_path("", "a.dll"), "a.dll");
}

#[test]
fn export_directory_ending_past_32_bits_is_a_parse_error() {
    let mut image = fixture_image();
    put_u32(&mut image, 0x58 + 116, 0xFFFF_FFFF);
    let mut reader = MemoryReader::new();
    let r = reader.load_symbols("C:\\huge.dll", &image);
    assert!(matches!(r, Err(MemoryError::ParseError(p)) if p == "C:\\huge.dll"));
    assert!(reader.cached_symbols("C:\\huge.dll", false).is_none());
}

#[test]
fn export_name_not_utf8_is_a_parse_error() {
    let mut image = fixture_image();
    image[0x320] = 0xFF;
    let mut reader = MemoryReader::new();
    let r = reader.load_symbols("C:\\bytes.dll", &image);
    assert!(matches!(r, Err(MemoryError::ParseError(p)) if p == "C:\\bytes.dll"));
}

#[test]
fn export_entry_check() {
    assert!(export_entry_checked(&fixture_image()));
    assert!(!export_entry_checked(&vec![0u8; 0x3F]));
    assert!(!export_entry_checked(&vec![0u8; 0x40]));
    let mut image = fixture_image();
    put_u32(&mut image, 0x58 + 112, 0xFFFF_FF00);
    put_u32(&mut image, 0x58 + 116, 0x100);
    assert!(!export_entry_checked(&image));
    put_u32(&mut image, 0x58 + 116, 0xFF);
    assert!(export_entry_checked(&image));
}
