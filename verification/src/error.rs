//! Failure classification and the exact diagnostic messages.
//!
//! Every recoverable failure is returned to the caller as an [`Error`]
//! value: a classification, a human-readable message, and (for failures the
//! loader reported by numeric code alone) the raw code. The message
//! of each well-known condition is pinned down character for character by a
//! spec function, so callers can rely on the diagnostic naming the path, the
//! symbol or the bit-widths involved.

use vstd::prelude::*;
use crate::numeral::dec_str;
use crate::numeral::u64_to_dec_string;

verus! {

/// How a failure is classified.
#[derive(Clone, Copy, Debug, PartialEq, Eq, Structural)]
pub enum ErrorKind {
    /// The library file, or one of its own dependencies, could not be
    /// located.
    NotFound,
    /// A caller-supplied identifier (a symbol name or an ordinal) named no
    /// export of the library.
    InvalidInput,
    /// Any other loader failure, carrying the loader's own diagnostic.
    Other,
}

/// A recoverable failure of a load or resolution operation.
#[derive(Debug, PartialEq, Eq)]
pub struct Error {
    /// The classification of the failure.
    pub kind: ErrorKind,
    /// The human-readable diagnostic.
    pub message: String,
    /// The operating system's own error code, where the failure reached
    /// the caller unclassified.
    pub raw_code: Option<i32>,
}

/// One predicate tying an error value to its classification, message and
/// raw code at once.
pub open spec fn error_is(e: Error, kind: ErrorKind, message: Seq<char>, raw_code: Option<i32>) -> bool {
    &&& e.kind == kind
    &&& e.message@ == message
    &&& e.raw_code == raw_code
}

/// The pointer width of the running process, in bits.
pub open spec fn process_width_bits() -> int {
    if usize::MAX == u32::MAX as usize {
        32
    } else {
        64
    }
}

/// The pointer width a library of the *other* supported width would have.
pub open spec fn other_width_bits() -> int {
    if process_width_bits() == 32 {
        64
    } else {
        32
    }
}

/// The label a bit-width carries in diagnostics.
pub open spec fn width_label(bits: int) -> Seq<char> {
    if bits == 32 {
        "32"@
    } else {
        "64"@
    }
}

/// The diagnostic for a library of the wrong machine width: names the
/// attempted width and the running process's width.
pub open spec fn arch_mismatch_message(path: Seq<char>) -> Seq<char> {
    "Unable to load "@ + path + ": ERROR_BAD_EXE_FORMAT (likely tried to load a "@
        + width_label(other_width_bits()) + "-bit DLL into this "@
        + width_label(process_width_bits()) + "-bit process)"@
}

/// The diagnostic for a library that could not be located: carries the
/// originally requested path.
pub open spec fn not_found_message(path: Seq<char>) -> Seq<char> {
    "Unable to load "@ + path + ": NotFound"@
}

/// The diagnostic for a named symbol absent from a library: carries the
/// requested name, sentinel excluded.
pub open spec fn missing_symbol_message(bare_name: Seq<char>) -> Seq<char> {
    "Symbol \""@ + bare_name + "\" missing from library"@
}

/// The diagnostic for an ordinal that resolves to no export.
pub open spec fn missing_ordinal_message(ordinal: u16) -> Seq<char> {
    "Symbol @"@ + dec_str(ordinal as nat) + " missing from library"@
}

/// The pointer width of the running process, in bits.
pub fn pointer_width_bits() -> (w: u64)
    ensures
        w == process_width_bits(),
{
    if usize::MAX == u32::MAX as usize {
        32
    } else {
        64
    }
}

fn width_label_str(bits: u64) -> (s: &'static str)
    ensures
        s@ == width_label(bits as int),
{
    if bits == 32 {
        "32"
    } else {
        "64"
    }
}

/// The architecture-mismatch error for a load of `path`.
pub fn arch_mismatch_error(path: &str) -> (e: Error)
    ensures
        error_is(e, ErrorKind::Other, arch_mismatch_message(path@), None),
{
    let this_width = pointer_width_bits();
    let that_width: u64 = if this_width == 32 {
        64
    } else {
        32
    };
    let mut m = "Unable to load ".to_owned();
    m.append(path);
    m.append(": ERROR_BAD_EXE_FORMAT (likely tried to load a ");
    m.append(width_label_str(that_width));
    m.append("-bit DLL into this ");
    m.append(width_label_str(this_width));
    m.append("-bit process)");
    proof {
        assert(m@ =~= arch_mismatch_message(path@));
    }
    Error { kind: ErrorKind::Other, message: m, raw_code: None }
}

/// The not-found error for a load of `path`.
pub fn not_found_error(path: &str) -> (e: Error)
    ensures
        error_is(e, ErrorKind::NotFound, not_found_message(path@), None),
{
    let mut m = "Unable to load ".to_owned();
    m.append(path);
    m.append(": NotFound");
    proof {
        assert(m@ =~= not_found_message(path@));
    }
    Error { kind: ErrorKind::NotFound, message: m, raw_code: None }
}

/// The missing-symbol error for a bare name (sentinel already stripped).
pub fn missing_symbol_error(bare_name: &str) -> (e: Error)
    ensures
        error_is(e, ErrorKind::InvalidInput, missing_symbol_message(bare_name@), None),
{
    let mut m = "Symbol \"".to_owned();
    m.append(bare_name);
    m.append("\" missing from library");
    proof {
        assert(m@ =~= missing_symbol_message(bare_name@));
    }
    Error { kind: ErrorKind::InvalidInput, message: m, raw_code: None }
}

/// The missing-symbol error for an ordinal.
pub fn missing_ordinal_error(ordinal: u16) -> (e: Error)
    ensures
        error_is(e, ErrorKind::InvalidInput, missing_ordinal_message(ordinal), None),
{
    let mut m = "Symbol @".to_owned();
    let numeral = u64_to_dec_string(ordinal as u64);
    m.append(numeral.as_str());
    m.append(" missing from library");
    proof {
        assert(m@ =~= missing_ordinal_message(ordinal));
    }
    Error { kind: ErrorKind::InvalidInput, message: m, raw_code: None }
}

/// The not-found diagnostic carries the originally requested path: the
/// path stands verbatim between the message's fixed prefix and suffix.
pub proof fn lemma_not_found_message_names_path(path: Seq<char>)
    ensures
        ({
            let prefix_len = "Unable to load "@.len() as int;
            not_found_message(path).subrange(prefix_len, prefix_len + path.len()) == path
        }),
{
    let prefix_len = "Unable to load "@.len() as int;
    assert(not_found_message(path).subrange(prefix_len, prefix_len + path.len()) =~= path);
}

/// The missing-symbol diagnostic carries exactly the requested name
/// (sentinel excluded): the name stands verbatim between the message's
/// fixed prefix and suffix.
pub proof fn lemma_missing_symbol_message_names_symbol(bare_name: Seq<char>)
    ensures
        ({
            let prefix_len = "Symbol \""@.len() as int;
            missing_symbol_message(bare_name).subrange(prefix_len, prefix_len + bare_name.len())
                == bare_name
        }),
{
    let prefix_len = "Symbol \""@.len() as int;
    assert(missing_symbol_message(bare_name).subrange(prefix_len, prefix_len + bare_name.len())
        =~= bare_name);
}

/// The architecture-mismatch diagnostic names both widths correctly: first
/// the width the loaded image would have needed, then the running
/// process's own width, and the two differ.
pub proof fn lemma_arch_mismatch_message_names_both_widths(path: Seq<char>)
    ensures
        ({
            let that = width_label(other_width_bits());
            let at_that = "Unable to load "@.len() as int + path.len()
                + ": ERROR_BAD_EXE_FORMAT (likely tried to load a "@.len();
            arch_mismatch_message(path).subrange(at_that, at_that + that.len()) == that
        }),
        ({
            let that = width_label(other_width_bits());
            let this = width_label(process_width_bits());
            let at_this = "Unable to load "@.len() as int + path.len()
                + ": ERROR_BAD_EXE_FORMAT (likely tried to load a "@.len() + that.len()
                + "-bit DLL into this "@.len();
            arch_mismatch_message(path).subrange(at_this, at_this + this.len()) == this
        }),
        other_width_bits() != process_width_bits(),
        width_label(other_width_bits()) != width_label(process_width_bits()),
{
    let that = width_label(other_width_bits());
    let this = width_label(process_width_bits());
    let at_that = "Unable to load "@.len() as int + path.len()
        + ": ERROR_BAD_EXE_FORMAT (likely tried to load a "@.len();
    let at_this = at_that + that.len() + "-bit DLL into this "@.len();
    assert(arch_mismatch_message(path).subrange(at_that, at_that + that.len()) =~= that);
    assert(arch_mismatch_message(path).subrange(at_this, at_this + this.len()) =~= this);
    reveal_strlit("32");
    reveal_strlit("64");
    assert(width_label(32)[0] == '3' && width_label(64)[0] == '6');
}

} // verus!
