//! The section path, taken for PE buffers: the section-header table is walked
//! in order, and for every section named exactly `.data` — exact match, not
//! case-insensitive, not a prefix — the raw bytes at the header's declared
//! (offset, size) range are searched for each marker's byte representation,
//! in marker order. Scanning stops at the first hit, and the cause reports
//! the marker literal itself: raw section bytes carry no symbol names.

use vstd::prelude::*;
use vstd::string::StringExecFns;
use exe::pe::PE;
use exe::types::CCharString;
use crate::markers::MarkerSet;
use crate::markers::first_marker_in_bytes;
use crate::markers::first_marker_in_bytes_exec;
use crate::verdict::Rustified;
use crate::verdict::ScanError;
use crate::verdict::make_cause;
use crate::verdict::res_view;
use crate::verdict::verdict_of_scan;

verus! {

/// The section-header table of a PE buffer, each header mapped to its name
/// and to the raw bytes at its declared (pointer_to_raw_data,
/// size_of_raw_data) range: `None` overall when the table is unreadable,
/// `None` for a name that is not valid UTF-8, `None` for a range that cannot
/// be read from the buffer. Parsing reads the bytes alone, so this is a pure
/// function of the buffer.
pub uninterp spec fn pe_sections(b: Seq<u8>) -> Option<
    Seq<(Option<Seq<char>>, Option<Seq<u8>>)>,
>;

/// Relies on exe::pe::VecPE::from_disk_data, exe::pe::PE::get_section_table,
/// exe::types::CCharString::as_str and exe::types::Offset::read: hands out,
/// in table order, each section header's zero-terminated name and the raw
/// bytes of its declared file range, read straight from the original buffer.
#[verifier::external_body]
fn pe_section_table(binary: &[u8]) -> (r: Option<Vec<(Option<String>, Option<Vec<u8>>)>>)
    ensures
        r.deep_view() == pe_sections(binary@),
{
    let image = exe::pe::VecPE::from_disk_data(binary);
    let sections = match image.get_section_table() {
        Ok(s) => s,
        Err(_) => return None,
    };
    let mut out: Vec<(Option<String>, Option<Vec<u8>>)> = Vec::new();
    for section in sections {
        let name = section.name.as_str().ok().map(String::from);
        let size = section.size_of_raw_data as usize;
        let data = section.pointer_to_raw_data.read(&image, size).ok().map(|d| d.to_vec());
        out.push((name, data));
    }
    Some(out)
}

/// The outcome of walking section headers in order: the first marker found in
/// a `.data`-named section's bytes, an error at the first `.data` section
/// whose declared range cannot be read when met before any hit, or nothing.
/// Sections under any other name are never examined.
pub open spec fn spec_scan_sections(
    secs: Seq<(Option<Seq<char>>, Option<Seq<u8>>)>,
    ms: Seq<Seq<char>>,
) -> Result<Option<Seq<char>>, ScanError>
    decreases secs.len(),
{
    if secs.len() == 0 {
        Ok(None)
    } else if secs[0].0 == Some(".data"@) {
        match secs[0].1 {
            Option::None => Err(ScanError::SectionData),
            Option::Some(data) => match first_marker_in_bytes(data, ms) {
                Some(marker) => Ok(Some(marker)),
                None => spec_scan_sections(secs.drop_first(), ms),
            },
        }
    } else {
        spec_scan_sections(secs.drop_first(), ms)
    }
}

/// The section-path verdict for a PE buffer: the cause built from the first
/// marker found in a `.data` section; no evidence when the table is
/// unreadable or no `.data` section contains a marker.
pub open spec fn spec_rustified_pe(b: Seq<u8>, ms: Seq<Seq<char>>) -> Result<
    Option<Seq<char>>,
    ScanError,
> {
    match pe_sections(b) {
        Some(secs) => verdict_of_scan(spec_scan_sections(secs, ms)),
        None => Ok(None),
    }
}

/// Walks the extracted sections in table order, scanning only those named
/// exactly `.data`, and stops at the first marker hit.
fn scan_sections(secs: &Vec<(Option<String>, Option<Vec<u8>>)>, markers: &MarkerSet) -> (r: Result<
    Rustified,
    ScanError,
>)
    ensures
        res_view(r) == verdict_of_scan(spec_scan_sections(secs.deep_view(), markers@)),
{
    let data_name = String::from_str(".data");
    let n = secs.len();
    proof {
        assert(secs.deep_view().skip(0) =~= secs.deep_view());
    }
    let mut i: usize = 0;
    while i < n
        invariant
            n == secs@.len(),
            i <= n,
            secs.deep_view().len() == n,
            data_name@ == ".data"@,
            markers@.len() == markers.markers@.len(),
            spec_scan_sections(secs.deep_view(), markers@) == spec_scan_sections(
                secs.deep_view().skip(i as int),
                markers@,
            ),
        decreases n - i,
    {
        proof {
            assert(secs.deep_view()[i as int] == secs@[i as int].deep_view());
            assert(secs.deep_view().skip(i as int)[0] == secs.deep_view()[i as int]);
            assert(secs.deep_view().skip(i as int).drop_first() =~= secs.deep_view().skip(
                i as int + 1,
            ));
        }
        let (name_opt, data_opt) = &secs[i];
        let is_data = match name_opt {
            Option::Some(name) => name.eq(&data_name),
            Option::None => false,
        };
        if is_data {
            match data_opt {
                Option::None => {
                    return Err(ScanError::SectionData);
                },
                Option::Some(data) => {
                    proof {
                        assert(data.deep_view() =~= data@);
                    }
                    match first_marker_in_bytes_exec(data.as_slice(), markers) {
                        Some(k) => {
                            let marker = &markers.markers[k];
                            proof {
                                assert(markers@[k as int] == markers.markers@[k as int]@);
                            }
                            return Ok(Rustified::Maybe { cause: make_cause(marker.as_str()) });
                        },
                        None => {},
                    }
                },
            }
        }
        i += 1;
    }
    proof {
        assert(secs.deep_view().skip(n as int) =~= Seq::<
            (Option<Seq<char>>, Option<Seq<u8>>),
        >::empty());
    }
    Ok(Rustified::Not)
}

/// The PE path: re-opens the container, retrieves its section-header table,
/// and scans the `.data`-named sections' raw bytes for the markers.
pub fn rustified_pe(binary: &[u8], markers: &MarkerSet) -> (r: Result<Rustified, ScanError>)
    ensures
        res_view(r) == spec_rustified_pe(binary@, markers@),
{
    match pe_section_table(binary) {
        Some(secs) => scan_sections(&secs, markers),
        None => Ok(Rustified::Not),
    }
}

} // verus!
