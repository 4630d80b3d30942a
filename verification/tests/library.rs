use minidl::error::pointer_width_bits;
use minidl::error::ErrorKind;
use minidl::name::is_valid_symbol_name;
use minidl::name::strip_sentinel;
use minidl::numeral::u64_to_dec_string;
use minidl::Backend;
use minidl::Library;
use minidl::LoadOutcome;
use minidl::PosixLoader;
use minidl::PosixOpen;
use minidl::ERROR_BAD_EXE_FORMAT;
use minidl::ERROR_MOD_NOT_FOUND;

fn lib() -> Library {
    Library::from_handle(0x1000).unwrap()
}

#[test]
fn well_formed_name_is_accepted() {
    assert!(is_valid_symbol_name("strlen\0"));
    assert!(is_valid_symbol_name("\0"));
    assert!(is_valid_symbol_name("a\0"));
}

#[test]
fn name_without_sentinel_is_rejected() {
    assert!(!is_valid_symbol_name("strlen"));
    assert!(!is_valid_symbol_name(""));
}

#[test]
fn name_with_embedded_sentinel_is_rejected() {
    assert!(!is_valid_symbol_name("str\0len\0"));
    assert!(!is_valid_symbol_name("\0\0"));
    assert!(!is_valid_symbol_name("\0strlen\0"));
}

#[test]
fn strip_sentinel_drops_exactly_the_terminator() {
    assert_eq!(strip_sentinel("strlen\0"), "strlen");
    assert_eq!(strip_sentinel("\0"), "");
}

#[test]
fn load_returns_handle_on_success() {
    let r = Library::load("libm.so.6", LoadOutcome::Opened(0x2a0));
    let lib = r.unwrap();
    assert_eq!(lib.handle(), 0x2a0);
}

#[test]
fn from_handle_wraps_any_raw_handle() {
    let lib = Library::from_handle(7).unwrap();
    assert_eq!(lib.handle(), 7);
    // Handles are plain values: equality compares the underlying image.
    assert_eq!(lib, Library::from_handle(7).unwrap());
    assert_ne!(lib, Library::from_handle(8).unwrap());
}

#[test]
fn posix_load_failure_surfaces_diagnostic_verbatim() {
    let diag = "missing.so: cannot open shared object file: No such file or directory";
    let e = Library::load("missing.so", LoadOutcome::PosixFailure(diag.to_owned())).unwrap_err();
    assert_eq!(e.kind, ErrorKind::Other);
    assert_eq!(e.message, diag);
    assert_eq!(e.raw_code, None);
}

#[test]
fn windows_bad_exe_format_reports_architecture_mismatch() {
    let e = Library::load(
        "wrong_width.dll",
        LoadOutcome::WindowsFailure(ERROR_BAD_EXE_FORMAT, "os text".to_owned()),
    )
    .unwrap_err();
    assert_eq!(e.kind, ErrorKind::Other);
    assert_eq!(e.raw_code, None);
    let this = pointer_width_bits();
    let that: u64 = if this == 32 { 64 } else { 32 };
    assert_eq!(
        e.message,
        format!(
            "Unable to load wrong_width.dll: ERROR_BAD_EXE_FORMAT (likely tried to load a {that}-bit DLL into this {this}-bit process)"
        )
    );
    assert!(e.message.contains("32-bit"));
    assert!(e.message.contains("64-bit"));
}

#[test]
fn windows_mod_not_found_reports_not_found_with_path() {
    let e = Library::load(
        "no_such.dll",
        LoadOutcome::WindowsFailure(ERROR_MOD_NOT_FOUND, "os text".to_owned()),
    )
    .unwrap_err();
    assert_eq!(e.kind, ErrorKind::NotFound);
    assert_eq!(e.message, "Unable to load no_such.dll: NotFound");
    assert!(e.message.contains("no_such.dll"));
    assert_eq!(e.raw_code, None);
}

#[test]
fn windows_other_code_is_surfaced_with_raw_code() {
    let e = Library::load(
        "locked.dll",
        LoadOutcome::WindowsFailure(5, "Access is denied.".to_owned()),
    )
    .unwrap_err();
    assert_eq!(e.kind, ErrorKind::Other);
    assert_eq!(e.message, "Access is denied.");
    assert_eq!(e.raw_code, Some(5));
}

#[test]
fn sym_opt_empty_for_absent_symbol() {
    assert_eq!(lib().sym_opt("absent\0", 0), None);
}

#[test]
fn sym_opt_returns_address_for_present_symbol() {
    assert_eq!(lib().sym_opt("strlen\0", 0x77), Some(0x77));
}

#[test]
fn has_sym_tracks_presence() {
    assert!(lib().has_sym("strlen\0", 0x77));
    assert!(!lib().has_sym("absent\0", 0));
}

#[test]
fn sym_names_the_missing_symbol_without_sentinel() {
    let e = lib().sym("frobnicate\0", 0).unwrap_err();
    assert_eq!(e.kind, ErrorKind::InvalidInput);
    assert_eq!(e.message, "Symbol \"frobnicate\" missing from library");
    assert!(e.message.contains("frobnicate"));
    assert_eq!(e.raw_code, None);
}

#[test]
fn sym_is_idempotent_for_one_loader_answer() {
    let first = lib().sym("strlen\0", 0x77).unwrap();
    let second = lib().sym("strlen\0", 0x77).unwrap();
    assert_eq!(first, second);
}

#[test]
fn ordinal_resolution_is_inert_on_posix() {
    let lib = lib();
    assert_eq!(lib.sym_opt_by_ordinal(Backend::Posix, 0, 0x77), None);
    assert_eq!(lib.sym_opt_by_ordinal(Backend::Posix, 1, 0x77), None);
    assert_eq!(lib.sym_opt_by_ordinal(Backend::Posix, u16::MAX, 0x77), None);
}

#[test]
fn ordinal_required_form_reports_missing_on_posix() {
    let lib = lib();
    let e = lib.sym_by_ordinal(Backend::Posix, 0, 0x77).unwrap_err();
    assert_eq!(e.kind, ErrorKind::InvalidInput);
    assert_eq!(e.message, "Symbol @0 missing from library");
    let e = lib.sym_by_ordinal(Backend::Posix, u16::MAX, 0x77).unwrap_err();
    assert_eq!(e.message, "Symbol @65535 missing from library");
}

#[test]
fn ordinal_resolution_works_on_windows() {
    let lib = lib();
    assert_eq!(lib.sym_opt_by_ordinal(Backend::Windows, 12, 0x77), Some(0x77));
    assert_eq!(lib.sym_opt_by_ordinal(Backend::Windows, 12, 0), None);
    assert_eq!(lib.sym_by_ordinal(Backend::Windows, 12, 0x77).unwrap(), 0x77);
    let e = lib.sym_by_ordinal(Backend::Windows, 12, 0).unwrap_err();
    assert_eq!(e.kind, ErrorKind::InvalidInput);
    assert_eq!(e.message, "Symbol @12 missing from library");
}

#[test]
fn decimal_rendering_matches_the_usual_numerals() {
    assert_eq!(u64_to_dec_string(0), "0");
    assert_eq!(u64_to_dec_string(9), "9");
    assert_eq!(u64_to_dec_string(10), "10");
    assert_eq!(u64_to_dec_string(65535), "65535");
    assert_eq!(u64_to_dec_string(18446744073709551615), "18446744073709551615");
}

#[test]
fn path_buffers_gain_exactly_one_terminator() {
    assert_eq!(
        minidl::encode::nul_terminate_bytes(b"libm.so.6"),
        b"libm.so.6\0"
    );
    assert_eq!(minidl::encode::nul_terminate_bytes(b""), b"\0");
    let wide: Vec<u16> = "m.dll".encode_utf16().collect();
    let mut expected = wide.clone();
    expected.push(0);
    assert_eq!(minidl::encode::nul_terminate_wide(&wide), expected);
}

#[test]
fn pointer_width_matches_the_process() {
    assert_eq!(pointer_width_bits(), usize::BITS as u64);
}

#[test]
fn posix_load_clears_stale_diagnostic_before_reporting() {
    let mut loader = PosixLoader { error_slot: Some("stale error from an unrelated call".to_owned()) };
    let e = loader.load(PosixOpen::Failed("fresh diagnostic".to_owned())).unwrap_err();
    assert_eq!(e.kind, ErrorKind::Other);
    assert_eq!(e.message, "fresh diagnostic");
    assert_eq!(loader.error_slot, None);
}

#[test]
fn posix_second_load_reports_no_leftover_error() {
    let mut loader = PosixLoader { error_slot: None };
    let first = loader.load(PosixOpen::Failed("first path failed".to_owned()));
    assert!(first.is_err());
    let second = loader.load(PosixOpen::Opened(0x5130));
    let lib = second.unwrap();
    assert_eq!(lib.handle(), 0x5130);
    assert_eq!(loader.error_slot, None);
}

#[test]
fn posix_load_succeeds_despite_stale_diagnostic() {
    let mut loader = PosixLoader { error_slot: Some("leftover".to_owned()) };
    let lib = loader.load(PosixOpen::Opened(0x99)).unwrap();
    assert_eq!(lib.handle(), 0x99);
    assert_eq!(loader.error_slot, None);
}
