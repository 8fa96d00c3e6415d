//! The container classifier: decides from raw bytes alone, with no look at
//! file names or extensions, whether a buffer is an ELF container, a PE
//! container, or neither. The ELF probe always takes priority; a buffer that
//! would satisfy both probes is classified ELF.

use vstd::prelude::*;
use exe::pe::PE;

verus! {

/// The container format of a byte buffer. Recomputed per file, never stored.
#[derive(Clone, Copy, Debug, PartialEq, Eq, Structural)]
pub enum FileType {
    Elf,
    Pe,
    Unknown,
}

/// Whether the bytes parse as an ELF container, that is, whether the ELF
/// file-header parse succeeds on them. Parsing reads the bytes alone, so
/// this is a pure function of the buffer.
pub uninterp spec fn elf_parse_ok(b: Seq<u8>) -> bool;

/// Relies on elf::ElfBytes::minimal_parse: parses the ELF file header from
/// the byte slice alone and deterministically; no other input is consulted.
#[verifier::external_body]
fn elf_probe(binary: &[u8]) -> (r: bool)
    ensures
        r == elf_parse_ok(binary@),
{
    elf::ElfBytes::<elf::endian::AnyEndian>::minimal_parse(binary).is_ok()
}

/// Relies on exe::pe::VecPE::from_disk_data and exe::pe::PE::get_section_table:
/// the former copies the byte slice into a disk-layout image, the latter
/// succeeds exactly when the DOS/NT headers are valid and the section-header
/// table lies inside the buffer; both read the bytes alone.
#[verifier::external_body]
fn pe_probe(binary: &[u8]) -> (r: bool)
    ensures
        r == crate::pe_scan::pe_sections(binary@) is Some,
{
    exe::pe::VecPE::from_disk_data(binary).get_section_table().is_ok()
}

/// The classification of a buffer: ELF when the ELF header parses, else PE
/// when the PE section-header table is readable, else unknown.
pub open spec fn spec_check_filetype(b: Seq<u8>) -> FileType {
    if elf_parse_ok(b) {
        FileType::Elf
    } else if crate::pe_scan::pe_sections(b) is Some {
        FileType::Pe
    } else {
        FileType::Unknown
    }
}

/// Attempts the two format probes in fixed order and returns the first that
/// succeeds; malformed or truncated input is a negative classification, never
/// an error.
pub fn check_filetype(binary: &[u8]) -> (r: FileType)
    ensures
        r == spec_check_filetype(binary@),
{
    if elf_probe(binary) {
        return FileType::Elf;
    }
    if pe_probe(binary) {
        return FileType::Pe;
    }
    FileType::Unknown
}

} // verus!
