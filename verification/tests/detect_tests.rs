use rustified::container::check_filetype;
use rustified::container::FileType;
use rustified::detect::rustified;
use rustified::elf_scan::rustified_elf;
use rustified::markers::MarkerSet;
use rustified::pe_scan::rustified_pe;
use rustified::verdict::Rustified;
use rustified::verdict::ScanError;

fn w16(b: &mut Vec<u8>, x: u16) {
    b.extend_from_slice(&x.to_le_bytes());
}

fn w32(b: &mut Vec<u8>, x: u32) {
    b.extend_from_slice(&x.to_le_bytes());
}

fn w64(b: &mut Vec<u8>, x: u64) {
    b.extend_from_slice(&x.to_le_bytes());
}

/// A 64-bit little-endian ELF file header whose section-header table sits
/// right after it and holds `shnum` entries.
fn elf_header(shnum: u16) -> Vec<u8> {
    let mut b = vec![0x7f, b'E', b'L', b'F', 2, 1, 1, 0, 0, 0, 0, 0, 0, 0, 0, 0];
    w16(&mut b, 2); // e_type: executable
    w16(&mut b, 0x3e); // e_machine: x86-64
    w32(&mut b, 1); // e_version
    w64(&mut b, 0); // e_entry
    w64(&mut b, 0); // e_phoff
    w64(&mut b, 64); // e_shoff
    w32(&mut b, 0); // e_flags
    w16(&mut b, 64); // e_ehsize
    w16(&mut b, 0); // e_phentsize
    w16(&mut b, 0); // e_phnum
    w16(&mut b, 64); // e_shentsize
    w16(&mut b, shnum);
    w16(&mut b, 0); // e_shstrndx
    b
}

fn shdr(b: &mut Vec<u8>, sh_type: u32, sh_offset: u64, sh_size: u64, sh_link: u32, sh_entsize: u64) {
    w32(b, 0); // sh_name
    w32(b, sh_type);
    w64(b, 0); // sh_flags
    w64(b, 0); // sh_addr
    w64(b, sh_offset);
    w64(b, sh_size);
    w32(b, sh_link);
    w32(b, 0); // sh_info
    w64(b, 0); // sh_addralign
    w64(b, sh_entsize);
}

fn sym(b: &mut Vec<u8>, st_name: u32) {
    w32(b, st_name);
    b.push(0); // st_info
    b.push(0); // st_other
    w16(b, 0); // st_shndx
    w64(b, 0); // st_value
    w64(b, 0); // st_size
}

const SHT_SYMTAB: u32 = 2;
const SHT_STRTAB: u32 = 3;
const SHT_DYNSYM: u32 = 11;

/// An ELF with one symbol table (static or dynamic) holding a null symbol
/// plus one symbol per given name, and its string table.
fn build_elf_one_table(sh_type: u32, names: &[&str]) -> Vec<u8> {
    let mut strtab: Vec<u8> = vec![0];
    let mut offsets: Vec<u32> = Vec::new();
    for n in names {
        offsets.push(strtab.len() as u32);
        strtab.extend_from_slice(n.as_bytes());
        strtab.push(0);
    }
    let nsyms = names.len() + 1;
    let sym_off = 64 + 3 * 64;
    let str_off = sym_off + nsyms * 24;
    let mut b = elf_header(3);
    shdr(&mut b, 0, 0, 0, 0, 0);
    shdr(&mut b, sh_type, sym_off as u64, (nsyms * 24) as u64, 2, 24);
    shdr(&mut b, SHT_STRTAB, str_off as u64, strtab.len() as u64, 0, 0);
    sym(&mut b, 0);
    for off in &offsets {
        sym(&mut b, *off);
    }
    b.extend_from_slice(&strtab);
    b
}

/// An ELF with both a static and a dynamic symbol table, each with its own
/// string table and one named symbol besides the null one.
fn build_elf_two_tables(static_name: &str, dynamic_name: &str) -> Vec<u8> {
    let mut strtab1: Vec<u8> = vec![0];
    strtab1.extend_from_slice(static_name.as_bytes());
    strtab1.push(0);
    let mut strtab2: Vec<u8> = vec![0];
    strtab2.extend_from_slice(dynamic_name.as_bytes());
    strtab2.push(0);
    let sym1_off = 64 + 5 * 64;
    let str1_off = sym1_off + 48;
    let sym2_off = str1_off + strtab1.len();
    let str2_off = sym2_off + 48;
    let mut b = elf_header(5);
    shdr(&mut b, 0, 0, 0, 0, 0);
    shdr(&mut b, SHT_SYMTAB, sym1_off as u64, 48, 2, 24);
    shdr(&mut b, SHT_STRTAB, str1_off as u64, strtab1.len() as u64, 0, 0);
    shdr(&mut b, SHT_DYNSYM, sym2_off as u64, 48, 4, 24);
    shdr(&mut b, SHT_STRTAB, str2_off as u64, strtab2.len() as u64, 0, 0);
    sym(&mut b, 0);
    sym(&mut b, 1);
    b.extend_from_slice(&strtab1);
    sym(&mut b, 0);
    sym(&mut b, 1);
    b.extend_from_slice(&strtab2);
    b
}

/// An ELF whose single static symbol references a string-table offset far
/// beyond the table: the internal-inconsistency case.
fn build_elf_bad_name_offset() -> Vec<u8> {
    let sym_off = 64 + 3 * 64;
    let str_off = sym_off + 48;
    let strtab: Vec<u8> = vec![0, b'f', b'o', b'o', 0];
    let mut b = elf_header(3);
    shdr(&mut b, 0, 0, 0, 0, 0);
    shdr(&mut b, SHT_SYMTAB, sym_off as u64, 48, 2, 24);
    shdr(&mut b, SHT_STRTAB, str_off as u64, strtab.len() as u64, 0, 0);
    sym(&mut b, 0);
    sym(&mut b, 9999);
    b.extend_from_slice(&strtab);
    b
}

/// Appends the DOS header, NT headers and file header of a 64-bit PE whose
/// section table holds `nsections` entries right after the optional header.
fn pe_prefix(nsections: u16) -> Vec<u8> {
    let mut b = vec![0u8; 0x40];
    b[0] = 0x4d; // 'M'
    b[1] = 0x5a; // 'Z'
    b[0x3c] = 0x40; // e_lfanew
    b.extend_from_slice(&[0x50, 0x45, 0, 0]); // "PE\0\0"
    w16(&mut b, 0x8664); // machine: x86-64
    w16(&mut b, nsections);
    w32(&mut b, 0); // time_date_stamp
    w32(&mut b, 0); // pointer_to_symbol_table
    w32(&mut b, 0); // number_of_symbols
    w16(&mut b, 112); // size_of_optional_header
    w16(&mut b, 0x0022); // characteristics
    w16(&mut b, 0x20b); // optional header magic: PE32+
    b.extend_from_slice(&[0u8; 110]);
    assert_eq!(b.len(), 0xc8);
    b
}

fn pe_section_header(b: &mut Vec<u8>, name: &[u8], ptr: u32, size: u32) {
    let mut nm = [0u8; 8];
    nm[..name.len()].copy_from_slice(name);
    b.extend_from_slice(&nm);
    w32(b, size); // virtual_size
    w32(b, 0x1000); // virtual_address
    w32(b, size); // size_of_raw_data
    w32(b, ptr); // pointer_to_raw_data
    w32(b, 0); // pointer_to_relocations
    w32(b, 0); // pointer_to_linenumbers
    w16(b, 0); // number_of_relocations
    w16(b, 0); // number_of_line_numbers
    w32(b, 0x4000_0040); // characteristics
}

/// A 64-bit PE whose sections carry the given names and raw contents.
fn build_pe(sections: &[(&[u8], &[u8])]) -> Vec<u8> {
    let mut b = pe_prefix(sections.len() as u16);
    let mut off = 0xc8 + sections.len() * 40;
    for (name, data) in sections {
        pe_section_header(&mut b, name, off as u32, data.len() as u32);
        off += data.len();
    }
    for (_, data) in sections {
        b.extend_from_slice(data);
    }
    b
}

/// A PE whose single `.data` section header points far outside the buffer.
fn build_pe_bad_data_pointer() -> Vec<u8> {
    let mut b = pe_prefix(1);
    pe_section_header(&mut b, b".data", 0x00ff_0000, 64);
    b
}

fn expect_cause(r: Result<Rustified, ScanError>) -> String {
    match r {
        Ok(Rustified::Maybe { cause }) => cause,
        other => panic!("expected evidence, got {:?}", other),
    }
}

#[test]
fn plain_text_with_marker_is_unknown_and_clean() {
    let buf = b"this plain text file mentions rust_panic in passing";
    assert_eq!(check_filetype(buf), FileType::Unknown);
    let ms = MarkerSet::rust_functions();
    assert!(matches!(rustified(buf, &ms), Ok(Rustified::Not)));
}

#[test]
fn empty_buffer_is_unknown() {
    assert_eq!(check_filetype(b""), FileType::Unknown);
    let ms = MarkerSet::rust_functions();
    assert!(matches!(rustified(b"", &ms), Ok(Rustified::Not)));
}

#[test]
fn elf_buffer_classifies_as_elf() {
    let buf = build_elf_one_table(SHT_SYMTAB, &["main"]);
    assert_eq!(check_filetype(&buf), FileType::Elf);
}

#[test]
fn pe_buffer_classifies_as_pe() {
    let buf = build_pe(&[(b".data", b"hello")]);
    assert_eq!(check_filetype(&buf), FileType::Pe);
}

#[test]
fn static_symbol_with_marker_reports_full_name() {
    let name = "_ZN3std9panicking10rust_panic17h1234abcdE";
    let buf = build_elf_one_table(SHT_SYMTAB, &["main", name]);
    let ms = MarkerSet::rust_functions();
    let cause = expect_cause(rustified(&buf, &ms));
    assert_eq!(cause, format!("function \"{}\" is found", name));
}

#[test]
fn dynamic_symbol_with_marker_reports_full_name() {
    let name = "_ZN4core9panicking9panic_fmt_rust_panic_17hfeedE";
    let buf = build_elf_one_table(SHT_DYNSYM, &["free", name]);
    let ms = MarkerSet::rust_functions();
    let cause = expect_cause(rustified(&buf, &ms));
    assert!(cause.contains("rust_panic"));
    assert_eq!(cause, format!("function \"{}\" is found", name));
}

#[test]
fn personality_marker_inside_longer_name_is_found() {
    let name = "my_rust_eh_personality_wrapper";
    let buf = build_elf_one_table(SHT_SYMTAB, &[name]);
    let ms = MarkerSet::rust_functions();
    let cause = expect_cause(rustified_elf(&buf, &ms));
    assert_eq!(cause, format!("function \"{}\" is found", name));
}

#[test]
fn elf_without_marker_is_clean() {
    let buf = build_elf_one_table(SHT_SYMTAB, &["main", "printf", "free"]);
    let ms = MarkerSet::rust_functions();
    assert!(matches!(rustified(&buf, &ms), Ok(Rustified::Not)));
}

#[test]
fn exhausted_static_table_does_not_fall_through_to_dynamic() {
    let buf = build_elf_two_tables("main", "_ZN10rust_panic17hE");
    let ms = MarkerSet::rust_functions();
    assert!(matches!(rustified(&buf, &ms), Ok(Rustified::Not)));
}

#[test]
fn static_table_takes_priority_over_dynamic() {
    let buf = build_elf_two_tables("outer_rust_panic_impl", "other");
    let ms = MarkerSet::rust_functions();
    let cause = expect_cause(rustified(&buf, &ms));
    assert_eq!(cause, "function \"outer_rust_panic_impl\" is found");
}

#[test]
fn unresolvable_symbol_name_is_a_per_file_error() {
    let buf = build_elf_bad_name_offset();
    let ms = MarkerSet::rust_functions();
    assert_eq!(rustified(&buf, &ms).unwrap_err(), ScanError::SymbolName);
}

#[test]
fn pe_data_section_with_marker_reports_marker_literal() {
    let mut data = b"...some bytes...rust_eh_personality...".to_vec();
    data.push(0);
    let buf = build_pe(&[(b".text", b"code"), (b".data", &data)]);
    let ms = MarkerSet::rust_functions();
    let cause = expect_cause(rustified(&buf, &ms));
    assert_eq!(cause, "function \"rust_eh_personality\" is found");
}

#[test]
fn marker_in_differently_named_section_is_not_found() {
    let buf = build_pe(&[
        (b".text", b"xx rust_panic xx"),
        (b".rdata", b"rust_eh_personality"),
        (b".data", b"nothing to see"),
    ]);
    let ms = MarkerSet::rust_functions();
    assert!(matches!(rustified(&buf, &ms), Ok(Rustified::Not)));
}

#[test]
fn marker_order_breaks_ties_in_data_section() {
    let buf = build_pe(&[(b".data", b"rust_eh_personality then rust_panic")]);
    let ms = MarkerSet::rust_functions();
    let cause = expect_cause(rustified_pe(&buf, &ms));
    assert_eq!(cause, "function \"rust_panic\" is found");
}

#[test]
fn unreadable_data_section_is_a_per_file_error() {
    let buf = build_pe_bad_data_pointer();
    let ms = MarkerSet::rust_functions();
    assert_eq!(rustified(&buf, &ms).unwrap_err(), ScanError::SectionData);
}

#[test]
fn pe_without_data_section_is_clean() {
    let buf = build_pe(&[(b".text", b"rust_panic"), (b".bss", b"")]);
    let ms = MarkerSet::rust_functions();
    assert!(matches!(rustified(&buf, &ms), Ok(Rustified::Not)));
}

#[test]
fn rerunning_on_same_buffer_gives_same_verdict() {
    let ms = MarkerSet::rust_functions();
    let hit = build_elf_one_table(SHT_SYMTAB, &["a_rust_panic_b"]);
    let c1 = expect_cause(rustified(&hit, &ms));
    let c2 = expect_cause(rustified(&hit, &ms));
    assert_eq!(c1, c2);
    let miss = build_pe(&[(b".data", b"plain")]);
    assert!(matches!(rustified(&miss, &ms), Ok(Rustified::Not)));
    assert!(matches!(rustified(&miss, &ms), Ok(Rustified::Not)));
}

#[test]
fn empty_marker_set_finds_nothing() {
    let ms = MarkerSet { markers: Vec::new() };
    let buf = build_elf_one_table(SHT_SYMTAB, &["a_rust_panic_b"]);
    assert!(matches!(rustified(&buf, &ms), Ok(Rustified::Not)));
}

#[test]
fn extended_marker_set_finds_new_marker() {
    let ms = MarkerSet {
        markers: vec![
            String::from("rust_panic"),
            String::from("rust_eh_personality"),
            String::from("rust_begin_unwind"),
        ],
    };
    let buf = build_elf_one_table(SHT_SYMTAB, &["rust_begin_unwind"]);
    let cause = expect_cause(rustified(&buf, &ms));
    assert_eq!(cause, "function \"rust_begin_unwind\" is found");
}
