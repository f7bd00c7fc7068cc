use native_scanner::engine::{
    assemble_record, scan_entries, EntryKind, FileMeta, FileRecord, ScanEntry, ScanMode,
};

const HELLO_HASH: &str = "2cf24dba5fb0a30e26e83b2ac5b9e29e1b161e5c1fa7425e73043362938b9824";
const DEADBEEF_HASH: &str = "5f78c33274e43fa9de5659265c1d917e25c03722dcb0b8d27db8d5feaa813953";

fn file_entry(path: &str, content: &[u8], meta: Option<FileMeta>) -> ScanEntry {
    ScanEntry {
        path: path.to_string(),
        kind: EntryKind::File,
        content: Some(content.to_vec()),
        meta,
    }
}

fn meta(size_bytes: u64, mtime_secs: u64, mtime_nanos: u32) -> FileMeta {
    FileMeta { size_bytes, mtime_secs, mtime_nanos }
}

fn sorted_by_path(mut records: Vec<FileRecord>) -> Vec<FileRecord> {
    records.sort_by(|a, b| a.path.cmp(&b.path));
    records
}

#[test]
fn empty_enumeration_yields_empty_result() {
    let records = scan_entries(&Vec::new(), ScanMode::Minimal);
    assert!(records.is_empty());
    let records = scan_entries(&Vec::new(), ScanMode::Extended);
    assert!(records.is_empty());
}

#[test]
fn one_record_per_accessible_file() {
    let entries = vec![
        file_entry("root/a.txt", b"hello", Some(meta(5, 10, 0))),
        ScanEntry {
            path: "root/b".to_string(),
            kind: EntryKind::Directory,
            content: None,
            meta: Some(meta(4096, 10, 0)),
        },
        file_entry("root/b/c.bin", &[0xde, 0xad, 0xbe, 0xef], Some(meta(4, 11, 0))),
        ScanEntry {
            path: "root/pipe".to_string(),
            kind: EntryKind::Other,
            content: None,
            meta: None,
        },
    ];
    let records = sorted_by_path(scan_entries(&entries, ScanMode::Minimal));
    assert_eq!(records.len(), 2);
    assert_eq!(records[0].path, "root/a.txt");
    assert_eq!(records[1].path, "root/b/c.bin");
    // no duplicate paths
    assert_ne!(records[0].path, records[1].path);
}

#[test]
fn deleted_file_is_excluded_and_scan_completes() {
    let entries = vec![
        file_entry("keep.txt", b"hello", None),
        ScanEntry {
            path: "vanished.txt".to_string(),
            kind: EntryKind::File,
            content: None, // enumerated, then gone before the read
            meta: None,
        },
    ];
    let records = scan_entries(&entries, ScanMode::Minimal);
    assert_eq!(records.len(), 1);
    assert_eq!(records[0].path, "keep.txt");
    assert_eq!(records[0].content_hash, HELLO_HASH);
}

#[test]
fn extended_mode_carries_size_and_mtime() {
    let entries = vec![file_entry("a.txt", b"hello", Some(meta(5, 1_700_000_000, 250_000_000)))];
    let records = scan_entries(&entries, ScanMode::Extended);
    assert_eq!(records.len(), 1);
    let m = records[0].meta.expect("extended mode must carry metadata");
    assert_eq!(m.size_bytes, 5);
    assert_eq!(m.size_bytes as usize, b"hello".len());
    assert_eq!(m.mtime_secs, 1_700_000_000);
    assert_eq!(m.mtime_nanos, 250_000_000);
}

#[test]
fn extended_mode_drops_file_without_metadata() {
    let entries = vec![
        file_entry("no-stat.txt", b"hello", None),
        file_entry("ok.txt", b"hello", Some(meta(5, 1, 0))),
    ];
    let records = scan_entries(&entries, ScanMode::Extended);
    assert_eq!(records.len(), 1);
    assert_eq!(records[0].path, "ok.txt");
}

#[test]
fn minimal_mode_carries_no_metadata() {
    let entries = vec![file_entry("a.txt", b"hello", Some(meta(5, 10, 0)))];
    let records = scan_entries(&entries, ScanMode::Minimal);
    assert_eq!(records.len(), 1);
    assert!(records[0].meta.is_none());
}

#[test]
fn same_tree_twice_yields_identical_sets() {
    let build = |flip: bool| {
        let a = file_entry("a.txt", b"hello", Some(meta(5, 10, 0)));
        let b = file_entry("b/c.bin", &[0xde, 0xad, 0xbe, 0xef], Some(meta(4, 11, 7)));
        if flip { vec![b, a] } else { vec![a, b] }
    };
    let first = sorted_by_path(scan_entries(&build(false), ScanMode::Extended));
    let second = sorted_by_path(scan_entries(&build(true), ScanMode::Extended));
    assert_eq!(first, second);
}

#[test]
fn example_tree_has_the_two_known_hashes() {
    let entries = vec![
        file_entry("a.txt", b"hello", Some(meta(5, 10, 0))),
        file_entry("b/c.bin", &[0xde, 0xad, 0xbe, 0xef], Some(meta(4, 11, 0))),
    ];
    let records = sorted_by_path(scan_entries(&entries, ScanMode::Minimal));
    assert_eq!(records.len(), 2);
    assert_eq!(records[0].path, "a.txt");
    assert_eq!(records[0].content_hash, HELLO_HASH);
    assert_eq!(records[1].path, "b/c.bin");
    assert_eq!(records[1].content_hash, DEADBEEF_HASH);
}

#[test]
fn hash_depends_on_content_not_path() {
    let one = file_entry("here.txt", b"same bytes", None);
    let other = file_entry("elsewhere/renamed.bin", b"same bytes", None);
    let r1 = one.to_record(ScanMode::Minimal).unwrap();
    let r2 = other.to_record(ScanMode::Minimal).unwrap();
    assert_eq!(r1.content_hash, r2.content_hash);
    assert_ne!(r1.path, r2.path);
}

#[test]
fn assemble_record_obeys_the_mode() {
    let r = assemble_record(
        "x".to_string(),
        HELLO_HASH.to_string(),
        Some(meta(5, 1, 2)),
        ScanMode::Extended,
    )
    .unwrap();
    assert_eq!(r.meta, Some(meta(5, 1, 2)));
    let r = assemble_record(
        "x".to_string(),
        HELLO_HASH.to_string(),
        Some(meta(5, 1, 2)),
        ScanMode::Minimal,
    )
    .unwrap();
    assert_eq!(r.meta, None);
    assert!(assemble_record("x".to_string(), HELLO_HASH.to_string(), None, ScanMode::Extended)
        .is_none());
}
