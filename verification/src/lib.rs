//! A minimal cross-platform abstraction over the operating system's
//! dynamic-library loading facility: load a shared library into the current
//! process, resolve exported symbols by name or ordinal, and report failures
//! with actionable diagnostics.
//!
//! The operating system calls themselves (the POSIX dynamic loader and the
//! Windows module loader) live outside this crate; this crate holds the
//! whole decision core: symbol-name validation, translation of each native
//! outcome into a success or a classified error, the exact diagnostic
//! messages, and the POSIX rule that stale loader diagnostics are cleared
//! before every load attempt.

use vstd::prelude::*;

pub mod encode;
pub mod error;
pub mod name;
pub mod numeral;

pub use crate::error::Error;
pub use crate::error::ErrorKind;
pub use crate::name::is_valid_symbol_name;
pub use crate::name::valid_symbol_name;

use crate::error::arch_mismatch_error;
use crate::error::arch_mismatch_message;
use crate::error::error_is;
use crate::error::missing_ordinal_error;
use crate::error::missing_ordinal_message;
use crate::error::missing_symbol_error;
use crate::error::missing_symbol_message;
use crate::error::not_found_error;
use crate::error::not_found_message;
use crate::name::strip_sentinel;

verus! {

/// The loader code the Windows module loader reports for an image of the
/// wrong machine type.
pub const ERROR_BAD_EXE_FORMAT: i32 = 0xC1;

/// The loader code the Windows module loader reports for a module that
/// could not be located.
pub const ERROR_MOD_NOT_FOUND: i32 = 0x7E;

/// Which native loader backs the process: the POSIX dynamic loader or the
/// Windows module loader. Chosen once, outside this crate, at build time.
#[derive(Clone, Copy, Debug, PartialEq, Eq, Structural)]
pub enum Backend {
    /// The POSIX-style loader. Ordinal resolution is inert here.
    Posix,
    /// The Windows-style loader.
    Windows,
}

/// What the native loader reported for one load attempt. The backend makes
/// the one operating-system call and hands the outcome over as plain values.
#[derive(Debug)]
pub enum LoadOutcome {
    /// The loader returned a handle; a successful load never returns the
    /// null handle.
    Opened(usize),
    /// The POSIX loader returned null; the field carries the diagnostic its
    /// error slot held afterwards, which already names the failing path.
    PosixFailure(String),
    /// The Windows loader returned null; the fields carry the last-error
    /// code and the operating system's own text for it.
    WindowsFailure(i32, String),
}

/// A loaded library handle.
///
/// A successful load never unloads: the handle stays valid for the life of
/// the process, so the value is freely copyable, and comparing two handles
/// for equality compares the underlying library image.
#[derive(Clone, Copy, Debug, PartialEq, Eq, PartialOrd, Ord, Hash, Structural)]
pub struct Library {
    /// The raw native handle: the plain machine word the loader returned.
    pub handle: usize,
}

/// What optional resolution makes of the address the native lookup
/// returned: the null address means the symbol is absent, and absence is
/// not an error.
pub open spec fn spec_sym_opt(resolved: usize) -> Option<usize> {
    if resolved == 0 {
        None
    } else {
        Some(resolved)
    }
}

/// What optional ordinal resolution makes of a lookup: inert (always
/// empty) on the POSIX backend, whatever the ordinal; the null-address rule
/// on the Windows backend.
pub open spec fn spec_sym_opt_by_ordinal(backend: Backend, ordinal: u16, resolved: usize) -> Option<usize> {
    match backend {
        Backend::Posix => None,
        Backend::Windows => spec_sym_opt(resolved),
    }
}

impl Library {
    /// The raw native handle this value wraps.
    pub open spec fn spec_handle(&self) -> usize {
        self.handle
    }

    /// The raw native handle this value wraps.
    pub fn handle(&self) -> (h: usize)
        ensures
            h == self.spec_handle(),
    {
        self.handle
    }

    /// Wrap a raw handle obtained elsewhere (for example, a handle to the
    /// current process's own module). Trusts the caller; never fails.
    pub fn from_handle(handle: usize) -> (r: Result<Library, Error>)
        ensures
            r matches Ok(lib) && lib.spec_handle() == handle,
    {
        Ok(Library { handle })
    }

    /// Translate the native loader's answer to one load attempt on `path`.
    ///
    /// A returned handle (never null) becomes a [`Library`]. A POSIX
    /// failure surfaces the loader's diagnostic verbatim. A Windows failure
    /// is classified: the wrong-machine-type code becomes the
    /// architecture-mismatch condition naming both bit-widths, the
    /// module-not-found code becomes the not-found condition naming `path`,
    /// and every other code is surfaced with the system's own text and the
    /// raw code.
    pub fn load(path: &str, outcome: LoadOutcome) -> (r: Result<Library, Error>)
        requires
            outcome matches LoadOutcome::Opened(h) ==> h != 0,
        ensures
            (match outcome {
                LoadOutcome::Opened(h) => r matches Ok(lib) && lib.spec_handle() == h,
                LoadOutcome::PosixFailure(msg) => r matches Err(e) && error_is(
                    e,
                    ErrorKind::Other,
                    msg@,
                    None,
                ),
                LoadOutcome::WindowsFailure(code, text) => if code == ERROR_BAD_EXE_FORMAT {
                    r matches Err(e) && error_is(e, ErrorKind::Other, arch_mismatch_message(path@), None)
                } else if code == ERROR_MOD_NOT_FOUND {
                    r matches Err(e) && error_is(e, ErrorKind::NotFound, not_found_message(path@), None)
                } else {
                    r matches Err(e) && error_is(e, ErrorKind::Other, text@, Some(code))
                },
            }),
    {
        match outcome {
            LoadOutcome::Opened(handle) => Ok(Library { handle }),
            LoadOutcome::PosixFailure(message) => Err(
                Error { kind: ErrorKind::Other, message, raw_code: None },
            ),
            LoadOutcome::WindowsFailure(code, text) => {
                if code == ERROR_BAD_EXE_FORMAT {
                    Err(arch_mismatch_error(path))
                } else if code == ERROR_MOD_NOT_FOUND {
                    Err(not_found_error(path))
                } else {
                    Err(Error { kind: ErrorKind::Other, message: text, raw_code: Some(code) })
                }
            },
        }
    }

    /// Optional resolution of `name`, given the address the native lookup
    /// returned for it. Absence (the null address) is a normal outcome, not
    /// an error.
    ///
    /// `name` must be a well-formed sentinel-terminated symbol name; that
    /// is a precondition, not runtime data.
    pub fn sym_opt(&self, name: &str, resolved: usize) -> (r: Option<usize>)
        requires
            valid_symbol_name(name@),
        ensures
            r == spec_sym_opt(resolved),
    {
        if resolved == 0 {
            None
        } else {
            Some(resolved)
        }
    }

    /// Required resolution of `name`: as [`Library::sym_opt`], but absence
    /// becomes an invalid-input error whose message names the missing
    /// symbol, sentinel excluded.
    pub fn sym(&self, name: &str, resolved: usize) -> (r: Result<usize, Error>)
        requires
            valid_symbol_name(name@),
        ensures
            resolved != 0 ==> (r matches Ok(a) && a == resolved),
            resolved == 0 ==> (r matches Err(e) && error_is(
                e,
                ErrorKind::InvalidInput,
                missing_symbol_message(name@.subrange(0, name@.len() - 1)),
                None,
            )),
    {
        match self.sym_opt(name, resolved) {
            Some(address) => Ok(address),
            None => Err(missing_symbol_error(strip_sentinel(name))),
        }
    }

    /// Whether `name` is exported by the library, given the address the
    /// native lookup returned for it.
    pub fn has_sym(&self, name: &str, resolved: usize) -> (r: bool)
        requires
            valid_symbol_name(name@),
        ensures
            r == (resolved != 0),
    {
        self.sym_opt(name, resolved).is_some()
    }

    /// Optional resolution by ordinal. Ordinal export tables exist only on
    /// the Windows backend; on the POSIX backend the operation is inert and
    /// returns the empty outcome for every ordinal.
    ///
    /// Ordinal assignments are an implementation detail of the exporting
    /// library and may change across even minor revisions of it; prefer
    /// resolution by name whenever the library publishes names.
    pub fn sym_opt_by_ordinal(&self, backend: Backend, ordinal: u16, resolved: usize) -> (r: Option<
        usize,
    >)
        ensures
            r == spec_sym_opt_by_ordinal(backend, ordinal, resolved),
    {
        match backend {
            Backend::Posix => None,
            Backend::Windows => {
                if resolved == 0 {
                    None
                } else {
                    Some(resolved)
                }
            },
        }
    }

    /// Required resolution by ordinal: as [`Library::sym_opt_by_ordinal`],
    /// but the empty outcome becomes an invalid-input error whose message
    /// names the ordinal.
    pub fn sym_by_ordinal(&self, backend: Backend, ordinal: u16, resolved: usize) -> (r: Result<
        usize,
        Error,
    >)
        ensures
            spec_sym_opt_by_ordinal(backend, ordinal, resolved) matches Some(a) ==> (r matches Ok(
                b,
            ) && b == a),
            spec_sym_opt_by_ordinal(backend, ordinal, resolved) is None ==> (r matches Err(e)
                && error_is(e, ErrorKind::InvalidInput, missing_ordinal_message(ordinal), None)),
    {
        match self.sym_opt_by_ordinal(backend, ordinal, resolved) {
            Some(address) => Ok(address),
            None => Err(missing_ordinal_error(ordinal)),
        }
    }
}

/// The POSIX loader's process-wide diagnostic slot.
///
/// That slot is shared with every other consumer of the loader in the
/// process, so a load attempt must clear it first: otherwise a failing
/// earlier call, made by anyone, would be reported as this call's failure.
/// This type models the slot so that protocol can be stated and proved.
pub struct PosixLoader {
    /// The diagnostic of the most recent failed loader call, if no one has
    /// read (and thereby cleared) it since.
    pub error_slot: Option<String>,
}

/// What the one native open call did in a POSIX load attempt.
#[derive(Debug)]
pub enum PosixOpen {
    /// The loader returned this handle; a successful open never returns
    /// the null handle.
    Opened(usize),
    /// The loader returned null and recorded this diagnostic, which
    /// already names the failing path, in its slot.
    Failed(String),
}

/// The loader state and result after one POSIX load attempt. The attempt
/// clears any stale diagnostic before the open, so both components depend
/// on the attempt's own outcome alone, and the slot ends clear either way.
pub open spec fn spec_posix_load(state: PosixLoader, attempt: PosixOpen) -> (PosixLoader, Result<
    Library,
    Error,
>) {
    match attempt {
        PosixOpen::Opened(h) => (PosixLoader { error_slot: None }, Ok(Library { handle: h })),
        PosixOpen::Failed(msg) => (
            PosixLoader { error_slot: None },
            Err(Error { kind: ErrorKind::Other, message: msg, raw_code: None }),
        ),
    }
}

impl PosixLoader {
    /// One load attempt against the POSIX loader, honouring the
    /// clear-before-use protocol: any stale diagnostic is discarded before
    /// the open, a failed open's diagnostic is read back (clearing the slot
    /// again) and surfaced verbatim, and a returned handle becomes a
    /// [`Library`].
    pub fn load(&mut self, attempt: PosixOpen) -> (r: Result<Library, Error>)
        requires
            attempt matches PosixOpen::Opened(h) ==> h != 0,
        ensures
            *final(self) == spec_posix_load(*old(self), attempt).0,
            r == spec_posix_load(*old(self), attempt).1,
    {
        // Reading the slot and discarding the answer clears whatever an
        // unrelated earlier call left there.
        self.error_slot = None;
        match attempt {
            PosixOpen::Opened(handle) => Ok(Library { handle }),
            PosixOpen::Failed(message) => {
                // The failed open records its diagnostic in the slot ...
                self.error_slot = Some(message.clone());
                // ... and reading it back for the caller clears it again.
                self.error_slot = None;
                Err(Error { kind: ErrorKind::Other, message, raw_code: None })
            },
        }
    }
}

/// Clearing the diagnostic slot before each open means a POSIX load never
/// depends on a stale diagnostic: two loader states, however their slots
/// differ, answer the same attempt with the same result and the same final
/// state.
pub proof fn lemma_posix_load_ignores_stale_diagnostic(
    first: PosixLoader,
    second: PosixLoader,
    attempt: PosixOpen,
)
    ensures
        spec_posix_load(first, attempt) == spec_posix_load(second, attempt),
{
}

/// Two POSIX loads in a row — a failing attempt, then a succeeding one —
/// give a second result that succeeds with the new handle and carries
/// nothing of the first attempt's diagnostic; the slot ends clear.
pub proof fn lemma_posix_no_stale_error_across_loads(initial: PosixLoader, stale: String, h: usize)
    requires
        h != 0,
    ensures
        ({
            let (after_first, first_result) = spec_posix_load(initial, PosixOpen::Failed(stale));
            let (after_second, second_result) = spec_posix_load(after_first, PosixOpen::Opened(h));
            &&& first_result matches Err(e) && error_is(e, ErrorKind::Other, stale@, None)
            &&& second_result matches Ok(lib) && lib.spec_handle() == h
            &&& after_second.error_slot is None
        }),
{
}

/// Resolution is a pure function of the address the native lookup
/// returned: two lookups the loader answers alike resolve alike, so a
/// repeated required resolution of one name returns the same address.
pub proof fn lemma_sym_resolution_idempotent(first: usize, second: usize)
    requires
        first == second,
    ensures
        spec_sym_opt(first) == spec_sym_opt(second),
{
}

/// Ordinal resolution on the POSIX backend is inert: it yields the empty
/// outcome for every ordinal — zero and the largest representable one
/// included — whatever the native lookup would have answered.
pub proof fn lemma_posix_ordinal_resolution_inert(ordinal: u16, resolved: usize)
    ensures
        spec_sym_opt_by_ordinal(Backend::Posix, ordinal, resolved) is None,
{
}

} // verus!

