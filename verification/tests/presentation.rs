use whatzip::bytes::matches_at;
use whatzip::quote::has_blank;
use whatzip::ArchiveType::{Bzip2, Gzip, MSCabinet, SevenZ, Tar, Xz, Zip};
use whatzip::{escape_filename, ArchiveType};

fn every_format() -> Vec<ArchiveType> {
    vec![
        Zip,
        Tar,
        Gzip { tar: false },
        Gzip { tar: true },
        Bzip2 { tar: false },
        Bzip2 { tar: true },
        Xz,
        SevenZ,
        MSCabinet,
    ]
}

#[test]
fn extension_of_each_format() {
    assert_eq!(Zip.typical_extension(), ".zip");
    assert_eq!(Tar.typical_extension(), ".tar");
    assert_eq!(Gzip { tar: false }.typical_extension(), ".gz");
    assert_eq!(Gzip { tar: true }.typical_extension(), ".tar.gz");
    assert_eq!(Bzip2 { tar: false }.typical_extension(), ".bz2");
    assert_eq!(Bzip2 { tar: true }.typical_extension(), ".tar.bz2");
    assert_eq!(Xz.typical_extension(), ".xz");
    assert_eq!(SevenZ.typical_extension(), ".7z");
    assert_eq!(MSCabinet.typical_extension(), ".cab");
}

#[test]
fn command_of_each_format() {
    assert_eq!(Zip.decompress_cmd("a.zip"), "unzip a.zip");
    assert_eq!(Tar.decompress_cmd("a.tar"), "tar -xf a.tar");
    assert_eq!(Gzip { tar: false }.decompress_cmd("a.gz"), "gunzip a.gz");
    assert_eq!(Gzip { tar: true }.decompress_cmd("a.tar.gz"), "tar -xzf a.tar.gz");
    assert_eq!(Bzip2 { tar: false }.decompress_cmd("a.bz2"), "bunzip2 a.bz2");
    assert_eq!(Bzip2 { tar: true }.decompress_cmd("a.tar.bz2"), "tar -xjf a.tar.bz2");
    assert_eq!(Xz.decompress_cmd("a.xz"), "xz -d a.xz");
    assert_eq!(SevenZ.decompress_cmd("a.7z"), "7z x a.7z");
    assert_eq!(MSCabinet.decompress_cmd("a.cab"), "cabextract a.cab");
}

#[test]
fn extension_begins_with_a_dot() {
    for format in every_format() {
        let ext = format.typical_extension();
        assert!(!ext.is_empty());
        assert!(ext.starts_with('.'));
    }
}

#[test]
fn command_names_the_file() {
    for format in every_format() {
        for name in ["archive", "my archive.bin", "tab\there", "say\"what\"", "d\u{e9}j\u{e0} vu"] {
            let cmd = format.decompress_cmd(name);
            assert!(cmd.contains(name), "{} lacks {}", cmd, name);
        }
    }
}

#[test]
fn command_quotes_a_name_with_a_space() {
    assert_eq!(Zip.decompress_cmd("my files.zip"), "unzip \"my files.zip\"");
    assert_eq!(
        Gzip { tar: true }.decompress_cmd("a \"b\".tgz"),
        "tar -xzf \"a \\\"b\\\".tgz\""
    );
}

#[test]
fn name_with_a_space_is_wrapped() {
    assert_eq!(escape_filename("a b"), "\"a b\"");
    assert_eq!(escape_filename(" "), "\" \"");
    assert_eq!(escape_filename("trailing "), "\"trailing \"");
}

#[test]
fn name_with_a_tab_is_wrapped() {
    assert_eq!(escape_filename("a\tb"), "\"a\tb\"");
}

#[test]
fn embedded_quote_gets_a_backslash() {
    assert_eq!(escape_filename("a \"b\""), "\"a \\\"b\\\"\"");
    assert_eq!(escape_filename("\" "), "\"\\\" \"");
}

#[test]
fn plain_name_is_unchanged() {
    assert_eq!(escape_filename("archive.tar.gz"), "archive.tar.gz");
    assert_eq!(escape_filename(""), "");
    assert_eq!(escape_filename("new\nline"), "new\nline");
}

#[test]
fn quote_without_blank_is_unchanged() {
    assert_eq!(escape_filename("say\"what\""), "say\"what\"");
    assert_eq!(escape_filename("back\\slash"), "back\\slash");
}

#[test]
fn backslash_is_not_doubled() {
    assert_eq!(escape_filename("a \\b"), "\"a \\b\"");
}

#[test]
fn names_outside_ascii_are_kept() {
    assert_eq!(escape_filename("caf\u{e9}.zip"), "caf\u{e9}.zip");
    assert_eq!(escape_filename("caf\u{e9} \"x\""), "\"caf\u{e9} \\\"x\\\"\"");
}

#[test]
fn blank_is_a_space_or_a_tab() {
    assert!(has_blank("a b"));
    assert!(has_blank("\t"));
    assert!(!has_blank("a\nb"));
    assert!(!has_blank("a\u{a0}b"));
    assert!(!has_blank(""));
}

#[test]
fn pattern_matches_inside_the_data_only() {
    let data = [1u8, 2, 3, 4, 5];
    assert!(matches_at(&data, 0, &[1, 2]));
    assert!(matches_at(&data, 3, &[4, 5]));
    assert!(matches_at(&data, 5, &[]));
    assert!(matches_at(&data, 0, &data));
    assert!(!matches_at(&data, 4, &[5, 6]));
    assert!(!matches_at(&data, 4, &[4]));
    assert!(!matches_at(&data, 6, &[]));
    assert!(!matches_at(&data, usize::MAX, &[1]));
    assert!(!matches_at(&[], 0, &[0]));
}
