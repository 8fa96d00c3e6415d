//! Detection of compiler-runtime markers in executable containers.
//!
//! Raw file bytes are classified as one of two container formats (ELF or PE).
//! For ELF, symbol names from the static or dynamic symbol table are searched
//! for marker substrings; for PE, the raw bytes of `.data` sections are.
//! A scan of a buffer ends in evidence, with a cause string, or in nothing.

pub mod container;
pub mod detect;
pub mod elf_scan;
pub mod markers;
pub mod pe_scan;
pub mod search;
pub mod verdict;
