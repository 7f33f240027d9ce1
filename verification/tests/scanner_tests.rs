use beatforge_core::extension_of;
use beatforge_core::is_recognized_extension;
use beatforge_core::scan_from_entries;
use beatforge_core::FileMeta;
use beatforge_core::FsEntry;

fn file_entry(path: &str, name: &str, created: Option<u64>, modified: Option<u64>, size: u64) -> FsEntry {
    FsEntry {
        path: path.to_string(),
        name: name.to_string(),
        is_file: true,
        meta: Ok(FileMeta { created, modified, size }),
    }
}

fn dir_entry(path: &str, name: &str) -> FsEntry {
    FsEntry {
        path: path.to_string(),
        name: name.to_string(),
        is_file: false,
        meta: Ok(FileMeta { created: None, modified: None, size: 0 }),
    }
}

#[test]
fn scan_empty_directory_returns_empty() {
    let r = scan_from_entries("/music/empty".to_string(), Vec::new());
    let info = r.expect("scan of an empty directory must succeed");
    assert_eq!(info.path, "/music/empty");
    assert_eq!(info.files.len(), 0);
}

#[test]
fn scan_nonexistent_path_returns_empty() {
    // A walk of a missing root visits no entry at all; the scan still
    // succeeds with an empty file list.
    let r = scan_from_entries("/no/such/path".to_string(), Vec::new());
    let info = r.expect("scan of a missing root must succeed");
    assert_eq!(info.path, "/no/such/path");
    assert_eq!(info.files.len(), 0);
}

#[test]
fn scan_keeps_exactly_the_recognized_files() {
    let entries = vec![
        file_entry("/d/Song.MP3", "Song.MP3", Some(1), Some(2), 10),
        file_entry("/d/beat.wav", "beat.wav", Some(3), Some(4), 20),
        file_entry("/d/notes.txt", "notes.txt", Some(5), Some(6), 30),
        dir_entry("/d/sub.mp3", "sub.mp3"),
        file_entry("/d/track.FLAC", "track.FLAC", Some(7), Some(8), 40),
        file_entry("/d/.mp3", ".mp3", Some(9), Some(10), 50),
        file_entry("/d/loop.m4a", "loop.m4a", Some(11), Some(12), 60),
    ];
    let info = scan_from_entries("/d".to_string(), entries).expect("scan must succeed");
    let names: Vec<&str> = info.files.iter().map(|f| f.name.as_str()).collect();
    assert_eq!(names, vec!["Song.MP3", "beat.wav", "track.FLAC", "loop.m4a"]);
    assert_eq!(info.files[0].path, "/d/Song.MP3");
    assert_eq!(info.files[0].created, 1);
    assert_eq!(info.files[0].modified, 2);
    assert_eq!(info.files[0].size, 10);
}

#[test]
fn scan_missing_timestamps_become_zero() {
    let entries = vec![
        file_entry("/d/a.mp3", "a.mp3", None, Some(7), 1),
        file_entry("/d/b.ogg", "b.ogg", Some(5), None, 2),
    ];
    let info = scan_from_entries("/d".to_string(), entries).expect("missing timestamps are no failure");
    assert_eq!(info.files.len(), 2);
    assert_eq!(info.files[0].created, 0);
    assert_eq!(info.files[0].modified, 7);
    assert_eq!(info.files[1].created, 5);
    assert_eq!(info.files[1].modified, 0);
}

#[test]
fn scan_metadata_error_on_eligible_file_aborts() {
    let entries = vec![
        file_entry("/d/ok.mp3", "ok.mp3", Some(1), Some(1), 1),
        FsEntry {
            path: "/d/bad.wav".to_string(),
            name: "bad.wav".to_string(),
            is_file: true,
            meta: Err("permission denied".to_string()),
        },
        file_entry("/d/late.ogg", "late.ogg", Some(2), Some(2), 2),
    ];
    let err = scan_from_entries("/d".to_string(), entries).expect_err("a failed metadata read aborts");
    assert_eq!(err, "permission denied");
}

#[test]
fn scan_first_metadata_error_wins() {
    let entries = vec![
        FsEntry {
            path: "/d/one.mp3".to_string(),
            name: "one.mp3".to_string(),
            is_file: true,
            meta: Err("first".to_string()),
        },
        FsEntry {
            path: "/d/two.mp3".to_string(),
            name: "two.mp3".to_string(),
            is_file: true,
            meta: Err("second".to_string()),
        },
    ];
    let err = scan_from_entries("/d".to_string(), entries).expect_err("must abort");
    assert_eq!(err, "first");
}

#[test]
fn scan_metadata_error_on_other_entries_is_ignored() {
    let entries = vec![
        FsEntry {
            path: "/d/readme.txt".to_string(),
            name: "readme.txt".to_string(),
            is_file: true,
            meta: Err("unreadable".to_string()),
        },
        FsEntry {
            path: "/d/locked".to_string(),
            name: "locked".to_string(),
            is_file: false,
            meta: Err("unreadable".to_string()),
        },
        file_entry("/d/song.mp3", "song.mp3", Some(1), Some(1), 1),
    ];
    let info = scan_from_entries("/d".to_string(), entries).expect("only eligible files abort a scan");
    assert_eq!(info.files.len(), 1);
    assert_eq!(info.files[0].name, "song.mp3");
}

#[test]
fn concurrent_scans_of_distinct_trees_are_independent() {
    let left = vec![file_entry("/a/x.mp3", "x.mp3", Some(1), Some(1), 1)];
    let right = vec![
        file_entry("/b/y.wav", "y.wav", Some(2), Some(2), 2),
        file_entry("/b/z.ogg", "z.ogg", Some(3), Some(3), 3),
    ];
    let l = scan_from_entries("/a".to_string(), left).expect("left scan");
    let r = scan_from_entries("/b".to_string(), right).expect("right scan");
    assert_eq!(l.path, "/a");
    assert_eq!(r.path, "/b");
    assert_eq!(l.files.len(), 1);
    assert_eq!(r.files.len(), 2);
    assert_eq!(l.files[0].name, "x.mp3");
    assert_eq!(r.files[0].name, "y.wav");
    assert_eq!(r.files[1].name, "z.ogg");
}

#[test]
fn extension_of_takes_the_part_after_the_last_dot() {
    assert_eq!(extension_of("song.mp3"), Some("mp3".to_string()));
    assert_eq!(extension_of("archive.tar.gz"), Some("gz".to_string()));
    assert_eq!(extension_of("trailing."), Some("".to_string()));
}

#[test]
fn extension_of_none_without_a_usable_dot() {
    assert_eq!(extension_of("noext"), None);
    assert_eq!(extension_of(".hidden"), None);
    assert_eq!(extension_of(""), None);
    assert_eq!(extension_of("."), None);
}

#[test]
fn recognized_extensions_match_case_insensitively() {
    assert!(is_recognized_extension("mp3"));
    assert!(is_recognized_extension("MP3"));
    assert!(is_recognized_extension("mP3"));
    assert!(is_recognized_extension("wav"));
    assert!(is_recognized_extension("WAV"));
    assert!(is_recognized_extension("ogg"));
    assert!(is_recognized_extension("flac"));
    assert!(is_recognized_extension("FLAC"));
    assert!(is_recognized_extension("FlAc"));
    assert!(is_recognized_extension("m4a"));
    assert!(is_recognized_extension("M4A"));
}

#[test]
fn unrecognized_extensions_are_refused() {
    assert!(!is_recognized_extension("txt"));
    assert!(!is_recognized_extension("mp4"));
    assert!(!is_recognized_extension("aac"));
    assert!(!is_recognized_extension(""));
    assert!(!is_recognized_extension("mp33"));
    assert!(!is_recognized_extension("flacc"));
}
