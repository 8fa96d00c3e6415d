//! The per-file verdict and the per-file failure, together with the ghost
//! value each carries and the construction of the human-readable cause string.

use vstd::prelude::*;
use vstd::string::StringExecFns;

verus! {

/// Per-file outcome: evidence that the buffer links the runtime, with a
/// human-readable cause, or nothing. Immutable once constructed.
#[derive(Debug)]
pub enum Rustified {
    Maybe { cause: String },
    Not,
}

/// A failure local to one file: the container's own tables are internally
/// inconsistent, which signals a corrupt or adversarially crafted binary
/// rather than a normal "no match". It never aborts a scan of other files.
#[derive(Clone, Copy, Debug, PartialEq, Eq, Structural)]
pub enum ScanError {
    /// A symbol entry references a string-table offset that cannot be resolved.
    SymbolName,
    /// A section header declares a raw-data range that cannot be read.
    SectionData,
}

impl View for Rustified {
    type V = Option<Seq<char>>;

    open spec fn view(&self) -> Option<Seq<char>> {
        match self {
            Rustified::Maybe { cause } => Some(cause@),
            Rustified::Not => None,
        }
    }
}

/// The cause string reported for a hit: `function "<name>" is found`.
pub open spec fn cause_for(name: Seq<char>) -> Seq<char> {
    "function \""@ + name + "\" is found"@
}

/// The ghost value of a scan result: the cause characters on evidence,
/// `None` on no evidence, or the per-file error.
pub open spec fn res_view(r: Result<Rustified, ScanError>) -> Result<Option<Seq<char>>, ScanError> {
    match r {
        Ok(v) => Ok(v@),
        Err(e) => Err(e),
    }
}

/// Lifts a scan outcome to the verdict it yields: a hit's name or marker is
/// wrapped in the cause string; no hit and errors pass through.
pub open spec fn verdict_of_scan(s: Result<Option<Seq<char>>, ScanError>) -> Result<
    Option<Seq<char>>,
    ScanError,
> {
    match s {
        Ok(Some(name)) => Ok(Some(cause_for(name))),
        Ok(None) => Ok(None),
        Err(e) => Err(e),
    }
}

/// Builds the cause string for a resolved symbol name or a marker literal.
pub fn make_cause(name: &str) -> (r: String)
    ensures
        r@ == cause_for(name@),
{
    let mut c = String::from_str("function \"");
    c.append(name);
    c.append("\" is found");
    c
}

} // verus!
