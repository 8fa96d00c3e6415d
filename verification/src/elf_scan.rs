//! The symbol-table path, taken for ELF buffers: the static symbol table is
//! consulted when usable, else the dynamic one — strict alternatives, never
//! both — and each entry's name, resolved through the table's string table,
//! is tested against the marker set in table order. Scanning stops at the
//! first name containing a marker; a name that fails to resolve before any
//! hit is a per-file error.

use vstd::prelude::*;
use crate::markers::MarkerSet;
use crate::markers::name_matches;
use crate::markers::name_matches_exec;
use crate::verdict::Rustified;
use crate::verdict::ScanError;
use crate::verdict::cause_for;
use crate::verdict::make_cause;
use crate::verdict::res_view;
use crate::verdict::verdict_of_scan;

verus! {

/// The `.symtab` entries of an ELF buffer, each mapped to its name as
/// resolved at the entry's st_name offset: `None` overall when the container
/// or that table is absent or unreadable, and a `None` entry where one name
/// does not resolve. Parsing reads the bytes alone, so this is a pure
/// function of the buffer.
pub uninterp spec fn elf_static_symbols(b: Seq<u8>) -> Option<Seq<Option<Seq<char>>>>;

/// The `.dynsym` entries of an ELF buffer, resolved the same way.
pub uninterp spec fn elf_dynamic_symbols(b: Seq<u8>) -> Option<Seq<Option<Seq<char>>>>;

/// Relies on elf::ElfBytes::{minimal_parse, symbol_table},
/// elf::symbol::SymbolTable::iter and elf::string_table::StringTable::get:
/// hands out the static symbol table's names in table order, resolving each
/// entry at its st_name offset, with `None` for an entry whose offset does
/// not resolve to a string.
#[verifier::external_body]
fn elf_static_symbol_names(binary: &[u8]) -> (r: Option<Vec<Option<String>>>)
    ensures
        r.deep_view() == elf_static_symbols(binary@),
{
    let file = match elf::ElfBytes::<elf::endian::AnyEndian>::minimal_parse(binary) {
        Ok(f) => f,
        Err(_) => return None,
    };
    let (symtab, strtab) = match file.symbol_table() {
        Ok(Some(pair)) => pair,
        _ => return None,
    };
    let mut names: Vec<Option<String>> = Vec::new();
    for sym in symtab.iter() {
        names.push(strtab.get(sym.st_name as usize).ok().map(String::from));
    }
    Some(names)
}

/// Relies on elf::ElfBytes::{minimal_parse, dynamic_symbol_table},
/// elf::symbol::SymbolTable::iter and elf::string_table::StringTable::get:
/// as above, for the dynamic symbol table.
#[verifier::external_body]
fn elf_dynamic_symbol_names(binary: &[u8]) -> (r: Option<Vec<Option<String>>>)
    ensures
        r.deep_view() == elf_dynamic_symbols(binary@),
{
    let file = match elf::ElfBytes::<elf::endian::AnyEndian>::minimal_parse(binary) {
        Ok(f) => f,
        Err(_) => return None,
    };
    let (symtab, strtab) = match file.dynamic_symbol_table() {
        Ok(Some(pair)) => pair,
        _ => return None,
    };
    let mut names: Vec<Option<String>> = Vec::new();
    for sym in symtab.iter() {
        names.push(strtab.get(sym.st_name as usize).ok().map(String::from));
    }
    Some(names)
}

/// The symbol table consulted for the buffer: the static one when usable,
/// else the dynamic one, else nothing. Only this one table is ever scanned.
pub open spec fn elf_selected_symbols(b: Seq<u8>) -> Option<Seq<Option<Seq<char>>>> {
    match elf_static_symbols(b) {
        Some(names) => Some(names),
        None => elf_dynamic_symbols(b),
    }
}

/// The outcome of scanning resolved names in order: the first name containing
/// a marker, an error at the first unresolved name met before any hit, or
/// nothing.
pub open spec fn spec_scan_names(
    names: Seq<Option<Seq<char>>>,
    ms: Seq<Seq<char>>,
) -> Result<Option<Seq<char>>, ScanError>
    decreases names.len(),
{
    if names.len() == 0 {
        Ok(None)
    } else {
        match names[0] {
            Option::None => Err(ScanError::SymbolName),
            Option::Some(name) => if name_matches(name, ms) {
                Ok(Some(name))
            } else {
                spec_scan_names(names.drop_first(), ms)
            },
        }
    }
}

/// The symbol-path verdict for an ELF buffer: the cause built from the first
/// matching name of the selected table; no evidence when no table is usable
/// or no name matches.
pub open spec fn spec_rustified_elf(b: Seq<u8>, ms: Seq<Seq<char>>) -> Result<
    Option<Seq<char>>,
    ScanError,
> {
    match elf_selected_symbols(b) {
        Some(names) => verdict_of_scan(spec_scan_names(names, ms)),
        None => Ok(None),
    }
}

/// Scans resolved names in table order, stopping at the first hit; an entry
/// that failed to resolve is fatal for this file when met before any hit.
fn scan_names(names: &Vec<Option<String>>, markers: &MarkerSet) -> (r: Result<
    Rustified,
    ScanError,
>)
    ensures
        res_view(r) == verdict_of_scan(spec_scan_names(names.deep_view(), markers@)),
{
    let n = names.len();
    proof {
        assert(names.deep_view().skip(0) =~= names.deep_view());
    }
    let mut i: usize = 0;
    while i < n
        invariant
            n == names@.len(),
            i <= n,
            names.deep_view().len() == n,
            spec_scan_names(names.deep_view(), markers@) == spec_scan_names(
                names.deep_view().skip(i as int),
                markers@,
            ),
        decreases n - i,
    {
        proof {
            assert(names.deep_view()[i as int] == names@[i as int].deep_view());
            assert(names.deep_view().skip(i as int)[0] == names.deep_view()[i as int]);
            assert(names.deep_view().skip(i as int).drop_first() =~= names.deep_view().skip(
                i as int + 1,
            ));
        }
        match &names[i] {
            Option::None => {
                return Err(ScanError::SymbolName);
            },
            Option::Some(name) => {
                if name_matches_exec(name.as_str(), markers) {
                    return Ok(Rustified::Maybe { cause: make_cause(name.as_str()) });
                }
            },
        }
        i += 1;
    }
    proof {
        assert(names.deep_view().skip(n as int) =~= Seq::<Option<Seq<char>>>::empty());
    }
    Ok(Rustified::Not)
}

/// The ELF path: re-opens the container, selects the static symbol table or
/// falls back to the dynamic one, and scans the selected table's names —
/// exhausting it never falls through to the other table.
pub fn rustified_elf(binary: &[u8], markers: &MarkerSet) -> (r: Result<Rustified, ScanError>)
    ensures
        res_view(r) == spec_rustified_elf(binary@, markers@),
{
    let selected = match elf_static_symbol_names(binary) {
        Some(names) => Some(names),
        None => elf_dynamic_symbol_names(binary),
    };
    match selected {
        Some(names) => scan_names(&names, markers),
        None => Ok(Rustified::Not),
    }
}

} // verus!
