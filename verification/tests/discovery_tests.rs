use waygate::analyze_non_native;
use waygate::fixture::parse_symbol_call_case_insensitive;
use waygate::pe::{parse_pe_imports, read_c_string, read_u16, read_u32, read_u64};

fn put16(buf: &mut Vec<u8>, off: usize, v: u16) {
    buf[off..off + 2].copy_from_slice(&v.to_le_bytes());
}

fn put32(buf: &mut Vec<u8>, off: usize, v: u32) {
    buf[off..off + 4].copy_from_slice(&v.to_le_bytes());
}

fn put64(buf: &mut Vec<u8>, off: usize, v: u64) {
    buf[off..off + 8].copy_from_slice(&v.to_le_bytes());
}

fn put_name(buf: &mut Vec<u8>, off: usize, name: &str) {
    // two-byte hint, then the NUL-terminated name
    let bytes = name.as_bytes();
    buf[off + 2..off + 2 + bytes.len()].copy_from_slice(bytes);
    buf[off + 2 + bytes.len()] = 0;
}

/// A minimal 32-bit image: one section at RVA 0x1000 mapped from file
/// offset 0x200, an import descriptor, a thunk array with an ordinal
/// entry interleaved and one duplicated name.
fn pe32_fixture() -> Vec<u8> {
    let mut b = vec![0u8; 0x400];
    b[0] = 0x4D;
    b[1] = 0x5A;
    put32(&mut b, 0x3C, 0x40);
    b[0x40] = 0x50;
    b[0x41] = 0x45;
    put16(&mut b, 0x46, 1); // section count
    put16(&mut b, 0x54, 224); // optional header size
    put16(&mut b, 0x58, 0x10B); // PE32 magic
    put32(&mut b, 0xC0, 0x1000); // import directory RVA
    // section table at 0x40 + 24 + 224 = 0x138
    put32(&mut b, 0x138 + 8, 0x200); // virtual size
    put32(&mut b, 0x138 + 12, 0x1000); // virtual address
    put32(&mut b, 0x138 + 16, 0x200); // raw size
    put32(&mut b, 0x138 + 20, 0x200); // raw offset
    // import descriptor at RVA 0x1000 -> offset 0x200
    put32(&mut b, 0x200, 0x1040); // original first thunk
    put32(&mut b, 0x200 + 12, 0x1100); // library name RVA
    put32(&mut b, 0x200 + 16, 0x1060); // first thunk
    // thunks at RVA 0x1040 -> offset 0x240
    put32(&mut b, 0x240, 0x1080);
    put32(&mut b, 0x244, 0x8000_0005); // ordinal-only entry, skipped
    put32(&mut b, 0x248, 0x1090);
    put32(&mut b, 0x24C, 0x10A0); // duplicate of the first name
    put32(&mut b, 0x250, 0);
    put_name(&mut b, 0x280, "Sleep");
    put_name(&mut b, 0x290, "CreateEvent");
    put_name(&mut b, 0x2A0, "Sleep");
    b
}

/// The same import list as a 64-bit image: magic 0x20B, the data
/// directory 16 bytes further in, 8-byte thunks.
fn pe64_fixture() -> Vec<u8> {
    let mut b = vec![0u8; 0x400];
    b[0] = 0x4D;
    b[1] = 0x5A;
    put32(&mut b, 0x3C, 0x40);
    b[0x40] = 0x50;
    b[0x41] = 0x45;
    put16(&mut b, 0x46, 1);
    put16(&mut b, 0x54, 240);
    put16(&mut b, 0x58, 0x20B);
    put32(&mut b, 0x40 + 24 + 112 + 8, 0x1000);
    // section table at 0x40 + 24 + 240 = 0x148
    put32(&mut b, 0x148 + 8, 0x200);
    put32(&mut b, 0x148 + 12, 0x1000);
    put32(&mut b, 0x148 + 16, 0x200);
    put32(&mut b, 0x148 + 20, 0x200);
    put32(&mut b, 0x200, 0x1040);
    put32(&mut b, 0x200 + 12, 0x1100);
    put32(&mut b, 0x200 + 16, 0x1060);
    put64(&mut b, 0x240, 0x1080);
    put64(&mut b, 0x248, 0x8000_0000_0000_0005); // ordinal-only entry
    put64(&mut b, 0x250, 0x1090);
    put64(&mut b, 0x258, 0);
    put_name(&mut b, 0x280, "GetTickCount");
    put_name(&mut b, 0x290, "PostMessageW");
    b
}

#[test]
fn pe32_imports_in_first_seen_order_without_duplicates() {
    let b = pe32_fixture();
    let an = parse_pe_imports(&b).expect("valid image");
    let names: Vec<&str> = an.winapi_calls.iter().map(|c| c.function.as_str()).collect();
    assert_eq!(names, vec!["Sleep", "CreateEvent"]);
    assert!(an.winapi_calls.iter().all(|c| c.args.is_empty()));
    assert!(an.non_windows_libs.is_empty());
}

#[test]
fn pe64_imports_are_recognized() {
    let b = pe64_fixture();
    let an = parse_pe_imports(&b).expect("valid image");
    let names: Vec<&str> = an.winapi_calls.iter().map(|c| c.function.as_str()).collect();
    assert_eq!(names, vec!["GetTickCount", "PostMessageW"]);
}

#[test]
fn unrecognized_import_names_are_ignored() {
    let mut b = pe32_fixture();
    put_name(&mut b, 0x290, "NotAnApi\0\0\0"); // overwrite the second name
    b[0x290 + 2 + 11] = 0;
    let an = parse_pe_imports(&b).expect("valid image");
    let names: Vec<&str> = an.winapi_calls.iter().map(|c| c.function.as_str()).collect();
    assert_eq!(names, vec!["Sleep"]);
}

#[test]
fn absent_import_directory_is_legal() {
    let mut b = pe32_fixture();
    put32(&mut b, 0xC0, 0); // no import directory
    let an = parse_pe_imports(&b).expect("valid image");
    assert!(an.winapi_calls.is_empty());
}

#[test]
fn short_buffer_is_not_a_pe() {
    assert!(parse_pe_imports(&[0x4D, 0x5A, 0, 0]).is_none());
}

#[test]
fn missing_mz_signature_is_not_a_pe() {
    let b = vec![0u8; 0x100];
    assert!(parse_pe_imports(&b).is_none());
}

#[test]
fn bad_optional_magic_is_not_a_pe() {
    let mut b = pe32_fixture();
    put16(&mut b, 0x58, 0x333);
    assert!(parse_pe_imports(&b).is_none());
}

#[test]
fn non_pe_input_falls_back_to_the_scanner() {
    let text = b"mzfake\nSleep(ms=10)\nuser32.dll\nlibz.so\n";
    let an = analyze_non_native(text);
    let names: Vec<&str> = an.winapi_calls.iter().map(|c| c.function.as_str()).collect();
    assert_eq!(names, vec!["Sleep"]);
    assert_eq!(an.winapi_calls[0].args, vec!["ms=10".to_string()]);
    assert_eq!(an.non_windows_libs, vec!["libz.so".to_string()]);
}

#[test]
fn richer_signature_wins() {
    let an = analyze_non_native(b"Sleep(ms=10)\nSleep()\n");
    let sigs: Vec<String> = an
        .winapi_calls
        .iter()
        .map(|c| format!("{}({})", c.function, c.args.join(",")))
        .collect();
    assert_eq!(sigs, vec!["Sleep(ms=10)".to_string()]);
}

#[test]
fn exact_duplicate_signatures_are_dropped() {
    let an = analyze_non_native(b"Sleep(ms=10)\nSleep(ms=10)\nSleep(ms=20)\n");
    let sigs: Vec<String> = an
        .winapi_calls
        .iter()
        .map(|c| format!("{}({})", c.function, c.args.join(",")))
        .collect();
    assert_eq!(
        sigs,
        vec!["Sleep(ms=10)".to_string(), "Sleep(ms=20)".to_string()]
    );
}

#[test]
fn scanner_matches_case_insensitively() {
    let an = analyze_non_native(b"calls SLEEP(ms=1) early\n");
    assert_eq!(an.winapi_calls.len(), 1);
    assert_eq!(an.winapi_calls[0].function, "Sleep");
    assert_eq!(an.winapi_calls[0].args, vec!["ms=1".to_string()]);
}

#[test]
fn scanner_sorts_unresolved_libraries() {
    let an = analyze_non_native(b"libzeta.so\nlibalpha.so\nlibzeta.so\n");
    assert_eq!(
        an.non_windows_libs,
        vec!["libalpha.so".to_string(), "libzeta.so".to_string()]
    );
}

#[test]
fn foreign_library_lines_are_silently_ignored() {
    let an = analyze_non_native(b"KERNEL32.dll\n\n   \n");
    assert!(an.winapi_calls.is_empty());
    assert!(an.non_windows_libs.is_empty());
}

#[test]
fn symbol_call_extracts_argument_list() {
    let c = parse_symbol_call_case_insensitive("  sleep(ms = 5, flag , )", "Sleep");
    assert_eq!(c.function, "Sleep");
    assert_eq!(c.args, vec!["ms = 5".to_string(), "flag".to_string()]);
    assert!(c.backtrace.is_empty());
}

#[test]
fn symbol_call_without_parens_is_bare() {
    let c = parse_symbol_call_case_insensitive("uses Sleep somewhere", "Sleep");
    assert_eq!(c.function, "Sleep");
    assert!(c.args.is_empty());
}

#[test]
fn readers_decode_little_endian() {
    let b = [0x01u8, 0x02, 0x03, 0x04, 0x05, 0x06, 0x07, 0x08, 0x09];
    assert_eq!(read_u16(&b, 0), Some(0x0201));
    assert_eq!(read_u32(&b, 1), Some(0x05040302));
    assert_eq!(read_u64(&b, 1), Some(0x0908070605040302));
    assert_eq!(read_u16(&b, 8), None);
    assert_eq!(read_u32(&b, 6), None);
    assert_eq!(read_u64(&b, 2), None);
}

#[test]
fn c_string_reader_stops_at_nul() {
    let b = [0u8, 0, b'A', b'B', 0, b'C'];
    assert_eq!(read_c_string(&b, 2), Some("AB".to_string()));
    assert_eq!(read_c_string(&b, 5), None); // no terminator
    assert_eq!(read_c_string(&[0xFF, 0x00], 0), None); // not UTF-8
}

#[test]
fn discovered_calls_replay_through_dispatch() {
    let b = pe32_fixture();
    let an = parse_pe_imports(&b).unwrap();
    let plan = waygate::plan::render_plan(&an.winapi_calls);
    assert_eq!(plan, "# waygate execution plan\n1\tSleep\t\n2\tCreateEvent\t\n");
    let mut st = waygate::state::CompatState::new();
    for c in &an.winapi_calls {
        assert!(waygate::dispatch(&mut st, &c.function, &c.args).is_ok());
    }
}
