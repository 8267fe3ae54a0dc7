use std::cell::RefCell;

use os_emul::{
    DirEntryInfo, OsEmul, CCP_POSIX_TO_WIN_W, CCP_WIN_W_TO_POSIX, FILE_ATTRIBUTE_READONLY,
    FILE_ATTRIBUTE_SYSTEM,
};

/// A stand-in for the foreign conversion entry point that swaps separator
/// styles: `/` becomes `\` going to the native namespace and the reverse
/// going to the emulated one.  It follows the two-phase protocol: with
/// capacity zero it only reports the output size.
fn swap_entry(mode: isize, input: Vec<u8>, cap: usize) -> (isize, Vec<u8>) {
    let mut bytes: Vec<u8> = input[..input.len() - 1].to_vec();
    for b in bytes.iter_mut() {
        if mode == CCP_POSIX_TO_WIN_W && *b == b'/' {
            *b = b'\\';
        }
        if mode == CCP_WIN_W_TO_POSIX && *b == b'\\' {
            *b = b'/';
        }
    }
    let sz = bytes.len() as isize;
    if cap == 0 {
        (sz, Vec::new())
    } else {
        (sz, bytes)
    }
}

fn active_translator() -> OsEmul {
    OsEmul::new(0x1000, 0x2000)
}

#[test]
fn it_works() {}

#[test]
fn inactive_when_library_missing() {
    let t = OsEmul::new(0, 0x2000);
    assert!(!t.running_under_cygwin());
}

#[test]
fn inactive_when_symbol_missing() {
    let t = OsEmul::new(0x1000, 0);
    assert!(!t.running_under_cygwin());
}

#[test]
fn inactive_when_nothing_resolved() {
    let t = OsEmul::new(0, 0);
    assert!(!t.running_under_cygwin());
}

#[test]
fn active_when_both_resolved() {
    let t = active_translator();
    assert!(t.running_under_cygwin());
}

#[test]
fn round_trip_relative_name() {
    let t = active_translator();
    let native = t.convert_cygpath_to_win("foo/bar", swap_entry);
    assert_eq!(native, "foo\\bar");
    let back = t.convert_winpath_to_cyg(&native, swap_entry);
    assert_eq!(back, "foo/bar");
}

#[test]
fn round_trip_root() {
    let t = active_translator();
    let emulated = t.convert_winpath_to_cyg("\\", swap_entry);
    assert_eq!(emulated, "/");
    let back = t.convert_cygpath_to_win(&emulated, swap_entry);
    assert_eq!(back, "\\");
}

#[test]
fn round_trip_with_spaces() {
    let t = active_translator();
    let native = t.convert_cygpath_to_win("my files/a b.txt", swap_entry);
    assert_eq!(native, "my files\\a b.txt");
    let back = t.convert_winpath_to_cyg(&native, swap_entry);
    assert_eq!(back, "my files/a b.txt");
}

#[test]
fn explicit_mode_matches_convenience_wrappers() {
    let t = active_translator();
    let via_mode = t.cygwin_convert_path(CCP_POSIX_TO_WIN_W, "foo/bar", swap_entry);
    let via_wrapper = t.convert_cygpath_to_win("foo/bar", swap_entry);
    assert_eq!(via_mode, via_wrapper);
    let back = t.cygwin_convert_path(CCP_WIN_W_TO_POSIX, "foo\\bar", swap_entry);
    assert_eq!(back, "foo/bar");
}

#[test]
fn empty_path_converts_to_empty() {
    let t = active_translator();
    let r = t.convert_winpath_to_cyg("", swap_entry);
    assert_eq!(r, "");
}

/// A stand-in entry point that rejects any path holding a `*`, the way the
/// native namespace rejects characters it cannot represent.
fn reject_star_entry(_mode: isize, input: Vec<u8>, cap: usize) -> (isize, Vec<u8>) {
    if input.contains(&b'*') {
        return (-1, Vec::new());
    }
    let bytes: Vec<u8> = input[..input.len() - 1].to_vec();
    let sz = bytes.len() as isize;
    if cap == 0 {
        (sz, Vec::new())
    } else {
        (sz, bytes)
    }
}

#[test]
fn unrepresentable_path_yields_sentinel() {
    let t = active_translator();
    let r = t.convert_cygpath_to_win("foo*bar", reject_star_entry);
    assert_eq!(r, "::CYGWIN::INVALID_PATH:: foo*bar");
}

#[test]
fn representable_path_passes_reject_entry() {
    let t = active_translator();
    let r = t.convert_cygpath_to_win("foobar", reject_star_entry);
    assert_eq!(r, "foobar");
}

/// A stand-in entry point whose fill call hands back bytes that are not
/// valid UTF-8: the decoding must replace them, not echo them or fail.
fn invalid_bytes_entry(_mode: isize, _input: Vec<u8>, cap: usize) -> (isize, Vec<u8>) {
    if cap == 0 {
        (2, Vec::new())
    } else {
        (2, vec![0xff, b'a'])
    }
}

#[test]
fn invalid_output_bytes_are_replaced() {
    let t = active_translator();
    let r = t.convert_cygpath_to_win("x", invalid_bytes_entry);
    assert_eq!(r, "\u{FFFD}a");
}

#[test]
fn dereference_composes_two_conversions() {
    let t = active_translator();
    let calls: RefCell<Vec<(isize, Vec<u8>, usize)>> = RefCell::new(Vec::new());
    let rec = &calls;
    let entry = move |mode: isize, input: Vec<u8>, cap: usize| -> (isize, Vec<u8>) {
        rec.borrow_mut().push((mode, input.clone(), cap));
        swap_entry(mode, input, cap)
    };
    let r = t.dereference_cygwin_symlink("C:\\link", entry);
    assert_eq!(r, "C:\\link");
    let seen = calls.borrow();
    assert_eq!(seen.len(), 4);
    // First conversion: native to emulated, probe then fill, on the input.
    assert_eq!(seen[0].0, CCP_WIN_W_TO_POSIX);
    assert_eq!(seen[0].1, b"C:\\link\0");
    assert_eq!(seen[0].2, 0);
    assert_eq!(seen[1].0, CCP_WIN_W_TO_POSIX);
    assert_eq!(seen[1].1, b"C:\\link\0");
    assert_eq!(seen[1].2, 7);
    // Second conversion: emulated back to native, on the first result.
    assert_eq!(seen[2].0, CCP_POSIX_TO_WIN_W);
    assert_eq!(seen[2].1, b"C:/link\0");
    assert_eq!(seen[2].2, 0);
    assert_eq!(seen[3].0, CCP_POSIX_TO_WIN_W);
    assert_eq!(seen[3].1, b"C:/link\0");
    assert_eq!(seen[3].2, 7);
}

#[test]
fn system_attribute_marks_symlink() {
    let t = active_translator();
    assert!(t.path_is_probably_cygwin_symlink("anything", Some(FILE_ATTRIBUTE_SYSTEM)));
}

#[test]
fn readonly_lnk_marks_symlink() {
    let t = active_translator();
    assert!(t.path_is_probably_cygwin_symlink("link.lnk", Some(FILE_ATTRIBUTE_READONLY)));
}

#[test]
fn readonly_plain_file_is_no_symlink() {
    let t = active_translator();
    assert!(!t.path_is_probably_cygwin_symlink("plain.txt", Some(FILE_ATTRIBUTE_READONLY)));
}

#[test]
fn plain_file_is_no_symlink() {
    let t = active_translator();
    assert!(!t.path_is_probably_cygwin_symlink("link.lnk", Some(0)));
}

#[test]
fn failed_attribute_query_is_no_symlink() {
    let t = active_translator();
    assert!(!t.path_is_probably_cygwin_symlink("link.lnk", None));
}

#[test]
fn short_name_needs_full_suffix() {
    let t = active_translator();
    assert!(!t.path_is_probably_cygwin_symlink("lnk", Some(FILE_ATTRIBUTE_READONLY)));
}

#[test]
fn dirent_delegates_to_path_heuristic() {
    let t = active_translator();
    let link = DirEntryInfo {
        path: String::from("dir/entry.lnk"),
        attributes: Some(FILE_ATTRIBUTE_READONLY),
    };
    assert!(t.dirent_is_probably_cygwin_symlink(&link));
    let plain = DirEntryInfo { path: String::from("dir/entry.txt"), attributes: Some(0) };
    assert!(!t.dirent_is_probably_cygwin_symlink(&plain));
}
