use rmpc_core::path::{extension, is_absolute, push_name, starts_with_path, strip_dir};
use rmpc_core::text::{
    is_whitespace, join, parse_u32, starts_with, strip_prefix, to_ascii_uppercase, to_decimal,
    to_signed_decimal, trim,
};
use std::path::{Path, PathBuf};

#[test]
fn whitespace_agrees_with_std_on_every_character() {
    for n in 0..=0x10ffffu32 {
        if let Some(c) = char::from_u32(n) {
            assert_eq!(is_whitespace(c), c.is_whitespace(), "{n:#x}");
        }
    }
}

#[test]
fn trim_removes_blanks_at_both_ends_only() {
    for s in ["", " ", "a", " a b ", "\t\u{2003}x\n", "\u{200b}x", "no", "\r\n\r\n", "ä ö "] {
        assert_eq!(trim(s), s.trim());
    }
}

#[test]
fn numbers_are_read_as_std_reads_them() {
    for s in [
        "0", "7", "100", "4294967295", "4294967296", "99999999999999999999", "+5", "-5", "", "+",
        " 5", "5 ", "05", "1_0", "++1", "٣", "0x10", "+0",
    ] {
        assert_eq!(parse_u32(s), s.parse::<u32>().ok(), "{s:?}");
    }
}

#[test]
fn numbers_are_written_as_std_writes_them() {
    for n in [0u64, 1, 9, 10, 42, 100, 65535, 1 << 40, u64::MAX] {
        assert_eq!(to_decimal(n), n.to_string());
    }
    for n in [0i32, 5, -1, -10, i32::MAX, i32::MIN] {
        assert_eq!(to_signed_decimal(n), n.to_string());
    }
}

#[test]
fn a_number_that_was_written_is_read_back() {
    for n in [0u32, 3, 99, 1000, u32::MAX] {
        assert_eq!(parse_u32(&to_decimal(n as u64)), Some(n));
    }
}

#[test]
fn prefixes() {
    assert!(starts_with("OK MPD 0.23.5", "OK"));
    assert!(!starts_with("O", "OK"));
    assert_eq!(strip_prefix("OK MPD 0.23.5\n", "OK MPD "), Some("0.23.5\n".to_string()));
    assert_eq!(strip_prefix("OK mpd", "OK MPD "), None);
}

#[test]
fn joining_puts_the_separator_in_between() {
    let parts = vec!["a".to_string(), "".to_string(), "b".to_string()];
    assert_eq!(join(&parts, "\n"), "a\n\nb");
    assert_eq!(join(&Vec::new(), "\n"), "");
}

#[test]
fn upper_case_is_for_ascii_only() {
    for s in ["artist", "MixedCase1", "größe", ""] {
        assert_eq!(to_ascii_uppercase(s), s.to_ascii_uppercase());
    }
}

const PATHS: [&str; 24] = [
    "", "/", "//", ".", "..", "a", "a/b", "/a/b", "a//b", "a/./b", "./a", "a/", "a/b/", "/music",
    "/music/", "/music/x.mp3", "/musical/x.mp3", "x.tar.gz", ".hidden", ".hidden.mp3", "a.",
    "dir.d/file", "x.mp3/", "a/..",
];

#[test]
fn absolute_paths_agree_with_std() {
    for p in PATHS {
        assert_eq!(is_absolute(p), Path::new(p).is_absolute(), "{p:?}");
    }
}

#[test]
fn extensions_agree_with_std() {
    for p in PATHS {
        let expected = Path::new(p).extension().map(|e| e.to_str().unwrap().to_string());
        assert_eq!(extension(p), expected, "{p:?}");
    }
}

#[test]
fn path_prefixes_agree_with_std() {
    for p in PATHS {
        for base in PATHS {
            let expected = Path::new(p).starts_with(base);
            assert_eq!(starts_with_path(p, base), expected, "{p:?} {base:?}");
        }
    }
}

#[test]
fn pushed_names_agree_with_std() {
    for dir in ["", "/", "/home/u/.config/rmpc", "/home/u/", "rel"] {
        let mut expected = PathBuf::from(dir);
        expected.push("spotify_token.json");
        let pushed = push_name(dir.to_string(), "spotify_token.json");
        assert_eq!(pushed, expected.to_str().unwrap());
    }
}

#[test]
fn the_music_directory_is_cut_off() {
    for (file, dir) in [
        ("/music/a/b.mp3", "/music"),
        ("/music/a/b.mp3", "/music/"),
        ("/music/", "/music"),
        ("/music", "/music"),
        ("/mm/x", "/m"),
        ("/a/a/a/x", "/a"),
        ("x/y/", ""),
        ("//x//", "/"),
    ] {
        let expected = file
            .trim_start_matches(dir)
            .trim_start_matches('/')
            .trim_end_matches('/');
        assert_eq!(strip_dir(file, dir), expected, "{file:?} {dir:?}");
    }
}
