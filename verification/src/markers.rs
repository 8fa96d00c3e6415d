//! The marker set: a fixed, ordered sequence of runtime-marker substrings,
//! configured once at startup and read-only for the rest of the run, and the
//! tests of a symbol name or a raw byte window against it.

use vstd::prelude::*;
use vstd::string::StringExecFns;
use vstd::utf8::encode_utf8;
use crate::search::contains_seq;
use crate::search::find_subsequence;
use crate::search::str_contains;

verus! {

/// The ordered marker substrings. Order decides the tie-break: when several
/// markers could match the same name or byte window, the earliest wins.
pub struct MarkerSet {
    pub markers: Vec<String>,
}

impl View for MarkerSet {
    type V = Seq<Seq<char>>;

    open spec fn view(&self) -> Seq<Seq<char>> {
        self.markers.deep_view()
    }
}

impl MarkerSet {
    /// The standard set: the panic/unwind-initiation routine name and the
    /// exception-personality routine name of the Rust runtime.
    pub fn rust_functions() -> (r: MarkerSet)
        ensures
            r@ =~= seq!["rust_panic"@, "rust_eh_personality"@],
    {
        let mut markers: Vec<String> = Vec::new();
        markers.push(String::from_str("rust_panic"));
        markers.push(String::from_str("rust_eh_personality"));
        MarkerSet { markers }
    }
}

/// Some marker occurs, as a contiguous case-sensitive substring, in the name.
pub open spec fn name_matches(name: Seq<char>, ms: Seq<Seq<char>>) -> bool {
    exists|k: int| 0 <= k < ms.len() && contains_seq(name, ms[k])
}

/// The first marker, in marker order, whose UTF-8 bytes occur contiguously in
/// the data; `None` when no marker's bytes occur.
pub open spec fn first_marker_in_bytes(data: Seq<u8>, ms: Seq<Seq<char>>) -> Option<Seq<char>>
    decreases ms.len(),
{
    if ms.len() == 0 {
        None
    } else if contains_seq(data, encode_utf8(ms[0])) {
        Some(ms[0])
    } else {
        first_marker_in_bytes(data, ms.drop_first())
    }
}

/// Tests a resolved name against every marker, in marker order.
pub fn name_matches_exec(name: &str, ms: &MarkerSet) -> (r: bool)
    ensures
        r == name_matches(name@, ms@),
{
    let n = ms.markers.len();
    let mut k: usize = 0;
    while k < n
        invariant
            n == ms.markers@.len(),
            k <= n,
            forall|j: int| 0 <= j < k ==> !contains_seq(name@, ms@[j]),
        decreases n - k,
    {
        proof {
            assert(ms@[k as int] == ms.markers@[k as int]@);
        }
        if str_contains(name, ms.markers[k].as_str()) {
            return true;
        }
        k += 1;
    }
    false
}

/// Finds the first marker, in marker order, whose byte representation occurs
/// in the data window; returns its index into the marker set.
pub fn first_marker_in_bytes_exec(data: &[u8], ms: &MarkerSet) -> (r: Option<usize>)
    ensures
        match r {
            Some(k) => k < ms@.len() && first_marker_in_bytes(data@, ms@) == Some(ms@[k as int]),
            None => first_marker_in_bytes(data@, ms@) is None,
        },
{
    let n = ms.markers.len();
    let mut k: usize = 0;
    proof {
        assert(ms@.skip(0) =~= ms@);
    }
    while k < n
        invariant
            n == ms.markers@.len(),
            k <= n,
            first_marker_in_bytes(data@, ms@) == first_marker_in_bytes(data@, ms@.skip(k as int)),
        decreases n - k,
    {
        proof {
            assert(ms@[k as int] == ms.markers@[k as int]@);
            assert(ms@.skip(k as int)[0] == ms@[k as int]);
        }
        if find_subsequence(data, ms.markers[k].as_str().as_bytes()).is_some() {
            return Some(k);
        }
        proof {
            assert(ms@.skip(k as int).drop_first() =~= ms@.skip(k as int + 1));
        }
        k += 1;
    }
    proof {
        assert(ms@.skip(n as int) =~= Seq::<Seq<char>>::empty());
    }
    None
}

} // verus!
