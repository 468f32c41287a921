use rune::describe::{
    describe_file, to_unix_path_string, with_unix_separators, DescribeError, FileDescription,
};
use std::path::PathBuf;

fn sample() -> FileDescription {
    describe_file(
        &PathBuf::from("/music/library/artist/album/song.flac"),
        &PathBuf::from("/music/library"),
        1_700_000_000,
    )
    .unwrap()
}

#[test]
fn a_file_under_the_root_is_described() {
    let d = sample();
    assert_eq!(d.root_path, PathBuf::from("/music/library"));
    assert_eq!(d.rel_path, PathBuf::from("artist/album/song.flac"));
    assert_eq!(d.full_path, PathBuf::from("/music/library/artist/album/song.flac"));
    assert_eq!(d.file_name, "song.flac");
    assert_eq!(d.directory, "artist/album");
    assert_eq!(d.extension, "flac");
    assert_eq!(d.file_hash, None);
    assert_eq!(d.last_modified, "1700000000");
}

#[test]
fn a_file_at_the_root_has_an_empty_directory() {
    let d = describe_file(
        &PathBuf::from("/music/library/song"),
        &PathBuf::from("/music/library"),
        0,
    )
    .unwrap();
    assert_eq!(d.file_name, "song");
    assert_eq!(d.directory, "");
    assert_eq!(d.extension, "");
    assert_eq!(d.last_modified, "0");
}

#[test]
fn backslashes_in_the_directory_become_slashes() {
    let d = describe_file(
        &PathBuf::from("/lib/a\\b/c\\d/e.mp3"),
        &PathBuf::from("/lib"),
        12,
    )
    .unwrap();
    assert_eq!(d.directory, "a/b/c/d");
    assert_eq!(d.file_name, "e.mp3");
}

#[test]
fn a_path_without_a_name_is_refused() {
    let r = describe_file(&PathBuf::from("/"), &PathBuf::from("/"), 1);
    assert_eq!(r.err(), Some(DescribeError::NoFileName));
    let r = describe_file(&PathBuf::from("/music/.."), &PathBuf::from("/music"), 1);
    assert_eq!(r.err(), Some(DescribeError::NoFileName));
}

#[test]
fn a_path_outside_the_root_is_refused() {
    let r = describe_file(
        &PathBuf::from("/elsewhere/song.flac"),
        &PathBuf::from("/music/library"),
        1,
    );
    assert_eq!(r.err(), Some(DescribeError::NotInLibrary));
}

#[test]
fn unix_path_strings() {
    assert_eq!(
        to_unix_path_string(PathBuf::from("a\\b\\c.flac")),
        Some("a/b/c.flac".to_string())
    );
    assert_eq!(to_unix_path_string(PathBuf::from("a/b")), Some("a/b".to_string()));
    assert_eq!(to_unix_path_string(PathBuf::new()), Some(String::new()));
    assert_eq!(with_unix_separators("\\\\host\\share"), "//host/share");
    assert_eq!(with_unix_separators("caf\u{e9}\\\u{266b}"), "caf\u{e9}/\u{266b}");
}

#[test]
fn the_checksum_is_read_once_and_kept() {
    let mut d = sample();
    let mut reads = 0;
    let first = d.get_crc(|| -> Result<u32, String> {
        reads += 1;
        Ok(0x1a2b_3c4d)
    });
    assert_eq!(first, Ok("1a2b3c4d".to_string()));
    assert_eq!(d.file_hash, Some("1a2b3c4d".to_string()));

    let second = d.get_crc(|| -> Result<u32, String> {
        reads += 1;
        Ok(0xffff_ffff)
    });
    assert_eq!(second, Ok("1a2b3c4d".to_string()));
    let third = d.get_crc(|| -> Result<u32, String> {
        reads += 1;
        Err("unreadable".to_string())
    });
    assert_eq!(third, Ok("1a2b3c4d".to_string()));
    assert_eq!(reads, 1);
}

#[test]
fn a_failed_read_keeps_nothing() {
    let mut d = sample();
    let failed = d.get_crc(|| -> Result<u32, String> { Err("unreadable".to_string()) });
    assert_eq!(failed, Err("unreadable".to_string()));
    assert_eq!(d.file_hash, None);
    let read = d.get_crc(|| -> Result<u32, String> { Ok(0xabc) });
    assert_eq!(read, Ok("00000abc".to_string()));
}

#[test]
fn the_summary_names_four_fields() {
    let d = sample();
    assert_eq!(
        d.summary(),
        "FileDescription { file_name: song.flac, directory: artist/album, extension: flac, last_modified: 1700000000 }"
    );
}
