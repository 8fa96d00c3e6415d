//! The verdict aggregator: classify the buffer, run the format's scan path,
//! and return the single per-file verdict — together with the laws the
//! pipeline obeys.

use vstd::prelude::*;
use crate::container::FileType;
use crate::container::check_filetype;
use crate::container::elf_parse_ok;
use crate::container::spec_check_filetype;
use crate::elf_scan::elf_selected_symbols;
use crate::elf_scan::rustified_elf;
use crate::elf_scan::spec_rustified_elf;
use crate::elf_scan::spec_scan_names;
use crate::markers::name_matches;
use crate::pe_scan::pe_sections;
use crate::pe_scan::rustified_pe;
use crate::pe_scan::spec_rustified_pe;
use crate::pe_scan::spec_scan_sections;
use crate::markers::MarkerSet;
use crate::markers::first_marker_in_bytes;
use crate::verdict::Rustified;
use crate::verdict::ScanError;
use crate::verdict::cause_for;
use crate::verdict::res_view;

verus! {

/// The verdict owed for a buffer: the ELF symbol path for an ELF container,
/// the PE section path for a PE container, and no evidence — with no
/// extraction attempted — for anything else.
pub open spec fn spec_rustified(b: Seq<u8>, ms: Seq<Seq<char>>) -> Result<
    Option<Seq<char>>,
    ScanError,
> {
    match spec_check_filetype(b) {
        FileType::Elf => spec_rustified_elf(b, ms),
        FileType::Pe => spec_rustified_pe(b, ms),
        FileType::Unknown => Ok(None),
    }
}

/// Classifies the buffer and dispatches to the matching scan path. Pure in
/// its inputs; processes one file, holds no state across calls.
pub fn rustified(binary: &[u8], markers: &MarkerSet) -> (r: Result<Rustified, ScanError>)
    ensures
        res_view(r) == spec_rustified(binary@, markers@),
{
    match check_filetype(binary) {
        FileType::Elf => rustified_elf(binary, markers),
        FileType::Pe => rustified_pe(binary, markers),
        FileType::Unknown => Ok(Rustified::Not),
    }
}

/// A buffer that is a valid instance of neither container is classified
/// `Unknown` and yields no evidence, whatever its content — even when it
/// holds a marker string as plain text.
pub proof fn lemma_unknown_no_evidence(b: Seq<u8>, ms: Seq<Seq<char>>)
    requires
        !elf_parse_ok(b),
        pe_sections(b) is None,
    ensures
        spec_check_filetype(b) == FileType::Unknown,
        spec_rustified(b, ms) == Ok::<Option<Seq<char>>, ScanError>(None),
{
}

/// Classification priority: a buffer that satisfies the ELF probe is
/// classified ELF, even when it would satisfy the PE probe as well.
pub proof fn lemma_classify_priority(b: Seq<u8>)
    requires
        elf_parse_ok(b),
    ensures
        spec_check_filetype(b) == FileType::Elf,
{
}

/// Idempotence: the verdict is a pure function of the buffer and the marker
/// set, so any two runs over the same bytes agree.
pub proof fn lemma_rustified_deterministic(
    b: Seq<u8>,
    ms: Seq<Seq<char>>,
    r1: Result<Option<Seq<char>>, ScanError>,
    r2: Result<Option<Seq<char>>, ScanError>,
)
    requires
        r1 == spec_rustified(b, ms),
        r2 == spec_rustified(b, ms),
    ensures
        r1 == r2,
{
}

/// Scanning a table whose names all resolved and where some name contains a
/// marker reports exactly the first such name: scanning stops at the first
/// hit and never reaches a later one.
proof fn lemma_scan_names_hit(names: Seq<Option<Seq<char>>>, ms: Seq<Seq<char>>)
    requires
        forall|j: int| 0 <= j < names.len() ==> names[j] is Some,
        exists|j: int| 0 <= j < names.len() && name_matches(#[trigger] names[j].unwrap(), ms),
    ensures
        exists|j: int|
            0 <= j < names.len() && name_matches(#[trigger] names[j].unwrap(), ms) && (forall|
                i: int,
            |
                0 <= i < j ==> !name_matches(#[trigger] names[i].unwrap(), ms))
                && spec_scan_names(names, ms) == Ok::<Option<Seq<char>>, ScanError>(
                Some(names[j].unwrap()),
            ),
    decreases names.len(),
{
    let j0 = choose|j: int| 0 <= j < names.len() && name_matches(#[trigger] names[j].unwrap(), ms);
    if name_matches(names[0].unwrap(), ms) {
        let j = 0;
        assert(name_matches(names[j].unwrap(), ms) && (forall|i: int|
            0 <= i < j ==> !name_matches(#[trigger] names[i].unwrap(), ms)) && spec_scan_names(
            names,
            ms,
        ) == Ok::<Option<Seq<char>>, ScanError>(Some(names[j].unwrap())));
    } else {
        let rest = names.drop_first();
        assert(forall|j: int| 0 <= j < rest.len() ==> rest[j] is Some);
        assert(rest[j0 - 1] == names[j0]);
        lemma_scan_names_hit(rest, ms);
        let jr = choose|j: int|
            0 <= j < rest.len() && name_matches(#[trigger] rest[j].unwrap(), ms) && (forall|i: int|
                0 <= i < j ==> !name_matches(#[trigger] rest[i].unwrap(), ms))
                && spec_scan_names(rest, ms) == Ok::<Option<Seq<char>>, ScanError>(
                Some(rest[j].unwrap()),
            );
        let j = jr + 1;
        assert(names[j] == rest[jr]);
        assert forall|i: int| 0 <= i < j implies !name_matches(
            #[trigger] names[i].unwrap(),
            ms,
        ) by {
            if i > 0 {
                assert(rest[i - 1] == names[i]);
            }
        };
        assert(name_matches(names[j].unwrap(), ms) && spec_scan_names(names, ms) == Ok::<
            Option<Seq<char>>,
            ScanError,
        >(Some(names[j].unwrap())));
    }
}

/// A symbol name containing a marker is never missed: when the table the
/// symbol path selects has every name resolved and one of them contains a
/// marker, the verdict is evidence, and its cause carries a full matching
/// symbol name — which may be longer than the marker — not the marker alone.
pub proof fn lemma_symbol_hit_reported(b: Seq<u8>, ms: Seq<Seq<char>>)
    requires
        elf_parse_ok(b),
        elf_selected_symbols(b) is Some,
        forall|j: int|
            0 <= j < elf_selected_symbols(b).unwrap().len() ==> elf_selected_symbols(
                b,
            ).unwrap()[j] is Some,
        exists|j: int|
            0 <= j < elf_selected_symbols(b).unwrap().len() && name_matches(
                #[trigger] elf_selected_symbols(b).unwrap()[j].unwrap(),
                ms,
            ),
    ensures
        exists|j: int|
            0 <= j < elf_selected_symbols(b).unwrap().len() && name_matches(
                #[trigger] elf_selected_symbols(b).unwrap()[j].unwrap(),
                ms,
            ) && (forall|i: int|
                0 <= i < j ==> !name_matches(
                    #[trigger] elf_selected_symbols(b).unwrap()[i].unwrap(),
                    ms,
                )) && spec_rustified(b, ms) == Ok::<Option<Seq<char>>, ScanError>(
                Some(cause_for(elf_selected_symbols(b).unwrap()[j].unwrap())),
            ),
{
    let names = elf_selected_symbols(b).unwrap();
    lemma_scan_names_hit(names, ms);
}

/// Scanning a table whose names all resolved and where no name contains any
/// marker yields no evidence.
proof fn lemma_scan_names_clean_miss(names: Seq<Option<Seq<char>>>, ms: Seq<Seq<char>>)
    requires
        forall|j: int|
            0 <= j < names.len() ==> (#[trigger] names[j]) is Some && !name_matches(
                names[j].unwrap(),
                ms,
            ),
    ensures
        spec_scan_names(names, ms) == Ok::<Option<Seq<char>>, ScanError>(None),
    decreases names.len(),
{
    if names.len() > 0 {
        let rest = names.drop_first();
        assert forall|j: int| 0 <= j < rest.len() implies (#[trigger] rest[j]) is Some
            && !name_matches(rest[j].unwrap(), ms) by {
            assert(rest[j] == names[j + 1]);
        };
        lemma_scan_names_clean_miss(rest, ms);
    }
}

/// No false positive from the symbol path: when the selected table's names
/// all resolved and none contains any marker, the verdict is no evidence —
/// and, the two tables being strict alternatives, nothing is ever reported
/// out of the table that was not selected.
pub proof fn lemma_symbols_clean_no_evidence(b: Seq<u8>, ms: Seq<Seq<char>>)
    requires
        elf_parse_ok(b),
        elf_selected_symbols(b) is Some,
        forall|j: int|
            0 <= j < elf_selected_symbols(b).unwrap().len() ==> (#[trigger] elf_selected_symbols(
                b,
            ).unwrap()[j]) is Some && !name_matches(
                elf_selected_symbols(b).unwrap()[j].unwrap(),
                ms,
            ),
    ensures
        spec_rustified(b, ms) == Ok::<Option<Seq<char>>, ScanError>(None),
{
    lemma_scan_names_clean_miss(elf_selected_symbols(b).unwrap(), ms);
}

/// Walking sections none of whose `.data`-named members holds a marker
/// yields no evidence: sections under any other name are never consulted.
proof fn lemma_scan_sections_clean(
    secs: Seq<(Option<Seq<char>>, Option<Seq<u8>>)>,
    ms: Seq<Seq<char>>,
)
    requires
        forall|j: int|
            0 <= j < secs.len() && (#[trigger] secs[j]).0 == Some(".data"@) ==> secs[j].1 is Some
                && first_marker_in_bytes(secs[j].1.unwrap(), ms) is None,
    ensures
        spec_scan_sections(secs, ms) == Ok::<Option<Seq<char>>, ScanError>(None),
    decreases secs.len(),
{
    if secs.len() > 0 {
        let rest = secs.drop_first();
        assert(forall|j: int| 0 <= j < rest.len() ==> #[trigger] rest[j] == secs[j + 1]);
        lemma_scan_sections_clean(rest, ms);
    }
}

/// Only sections named exactly `.data` are scanned: a marker placed in any
/// differently named section is never found. When every `.data` section is
/// readable and marker-free, the verdict is no evidence, whatever the other
/// sections hold.
pub proof fn lemma_only_data_sections_scanned(b: Seq<u8>, ms: Seq<Seq<char>>)
    requires
        !elf_parse_ok(b),
        pe_sections(b) is Some,
        forall|j: int|
            0 <= j < pe_sections(b).unwrap().len() && (#[trigger] pe_sections(b).unwrap()[j]).0
                == Some(".data"@) ==> pe_sections(b).unwrap()[j].1 is Some
                && first_marker_in_bytes(pe_sections(b).unwrap()[j].1.unwrap(), ms) is None,
    ensures
        spec_rustified(b, ms) == Ok::<Option<Seq<char>>, ScanError>(None),
{
    lemma_scan_sections_clean(pe_sections(b).unwrap(), ms);
}

} // verus!
