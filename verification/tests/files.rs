use qsync::file::checksum::{block_checksum, to_hex_lower};
use qsync::file::checksum_walk::{entry_action, ChecksumWalk, EntryAction};
use qsync::file::file_assembler::{block_offset, modified_time_parts};
use qsync::file::temp_tree::{join_path, relative_target_path, sync_file_paths, temp_tree_file_path, TempTreeError};
use qsync::file::{DirMeta, FileMeta};
use qsync::CHUNK_SIZE;

#[test]
fn hex_encoding() {
    assert_eq!(to_hex_lower(&[0x00, 0xab, 0xff, 0x10]), "00abff10");
    assert_eq!(to_hex_lower(&[]), "");
}

#[test]
fn checksum_of_empty_block() {
    assert_eq!(
        block_checksum(b""),
        "af1349b9f5f9a1a6a0404dea36dcc9499bcb25c9adc112b7cc9a93cae41f3262"
    );
}

#[test]
fn checksum_of_abc() {
    let c = block_checksum(b"abc");
    assert_eq!(c, "6437b3ac38465133ffb63b75273a8db548c558465d79db03fd359c6cd5bd9d85");
    assert_eq!(c.len(), 64);
}

#[test]
fn checksums_differ_for_different_blocks() {
    assert_ne!(block_checksum(b"block one"), block_checksum(b"block two"));
    assert_eq!(block_checksum(b"same"), block_checksum(b"same"));
}

#[test]
fn relative_paths() {
    assert_eq!(relative_target_path("/srv/data/x/y.txt", "/srv/data"), Some("x/y.txt".to_string()));
    assert_eq!(relative_target_path("/srv/data/x/y.txt", "/srv/data/"), Some("x/y.txt".to_string()));
    assert_eq!(relative_target_path("/srv/f.txt", "/srv/f.txt"), Some("".to_string()));
    assert_eq!(relative_target_path("/other/x", "/srv/data"), None);
    assert_eq!(relative_target_path("/srv", "/srv/data"), None);
    assert_eq!(relative_target_path("/srv/data//x", "/srv/data"), Some("/x".to_string()));
}

#[test]
fn joined_paths() {
    assert_eq!(join_path("/tmp/t", "a/b"), "/tmp/t/a/b");
    assert_eq!(join_path("/tmp/t/", "a"), "/tmp/t/a");
    assert_eq!(join_path("x", "/abs"), "/abs");
    assert_eq!(join_path("", "a"), "a");
    assert_eq!(join_path("/tmp/t", ""), "/tmp/t/");
}

#[test]
fn temp_tree_paths() {
    assert_eq!(temp_tree_file_path("/home/u/dirXYZ", "/srv/dir/sub/f", "/srv/dir"), Ok("/home/u/dirXYZ/sub/f".to_string()));
    assert_eq!(temp_tree_file_path("/home/u/dirXYZ", "/elsewhere/f", "/srv/dir"), Err(TempTreeError::RemotePathMalformed));
}

#[test]
fn sync_paths_for_directory_target() {
    let p = sync_file_paths("/srv/dir/sub/f", "/srv/dir", "/home/u/dirXYZ", "/home/u/dir").unwrap();
    assert_eq!(p, ("/home/u/dirXYZ/sub/f".to_string(), "/home/u/dir/sub/f".to_string()));
}

#[test]
fn sync_paths_for_file_target() {
    let p = sync_file_paths("/srv/f.txt", "/srv/f.txt", "/home/u/f.txtAB12", "/home/u/f.txt").unwrap();
    assert_eq!(p, ("/home/u/f.txtAB12".to_string(), "/home/u/f.txt".to_string()));
    assert_eq!(sync_file_paths("/x", "/srv", "/a", "/b"), None);
}

#[test]
fn timestamp_parts() {
    assert_eq!(modified_time_parts(1_700_000_123_456), (1_700_000_123, 456_000_000));
    assert_eq!(modified_time_parts(999), (0, 999_000_000));
    assert_eq!(modified_time_parts(0), (0, 0));
}

#[test]
fn timestamp_parts_add_back_up() {
    let ts: u128 = 1_234_567_890_123;
    let (s, n) = modified_time_parts(ts);
    assert_eq!(s as u128 * 1000 + (n / 1_000_000) as u128, ts);
}

#[test]
fn block_offsets() {
    assert_eq!(block_offset(3, CHUNK_SIZE), 49152);
    assert_eq!(block_offset(0, 100), 0);
    assert_eq!(CHUNK_SIZE, 16 * 1024);
}

#[test]
fn entry_actions() {
    // arguments: is_symlink, is_file (links not followed)
    assert_eq!(entry_action(true, false), EntryAction::Symlink);
    assert_eq!(entry_action(true, true), EntryAction::Symlink);
    assert_eq!(entry_action(false, true), EntryAction::Checksum);
    assert_eq!(entry_action(false, false), EntryAction::Descend);
}

#[test]
fn walk_is_breadth_first() {
    let mut w = ChecksumWalk::from_root("/r".to_string());
    let d = w.next_dir().unwrap();
    assert_eq!(d, "/r");
    w.add_subdir("/r/a".to_string());
    w.add_file(FileMeta::new_file("/r/f".to_string(), vec!["c1".to_string()], 5, 10, Some(0o644)));
    w.add_subdir("/r/b".to_string());
    w.add_symlink("/r/link".to_string(), "../elsewhere".to_string());
    w.finish_dir(100);
    let d = w.next_dir().unwrap();
    assert_eq!(d, "/r/a");
    w.add_subdir("/r/a/c".to_string());
    w.finish_dir(200);
    assert_eq!(w.next_dir().unwrap(), "/r/b");
    w.finish_dir(300);
    assert_eq!(w.next_dir().unwrap(), "/r/a/c");
    w.finish_dir(400);
    assert!(w.next_dir().is_none());
    let (files, dirs) = w.into_parts();
    assert_eq!(files.len(), 2);
    assert_eq!(files[0].path, "/r/f");
    assert_eq!(files[1].path, "/r/link");
    assert!(files[1].is_symlink);
    assert_eq!(files[1].symlink_target, Some("../elsewhere".to_string()));
    assert_eq!(files[1], FileMeta::new_symlink("/r/link".to_string(), "../elsewhere".to_string()));
    assert!(files[1].checksums.is_empty());
    let paths: Vec<&str> = dirs.iter().map(|d| d.path.as_str()).collect();
    assert_eq!(paths, vec!["/r", "/r/a", "/r/b", "/r/a/c"]);
    let times: Vec<u128> = dirs.iter().map(|d| d.modified_timestamp).collect();
    assert_eq!(times, vec![100, 200, 300, 400]);
}

#[test]
fn file_meta_constructors() {
    let f = FileMeta::new_file("/p".to_string(), vec!["a".to_string(), "b".to_string()], 12, 34, None);
    assert_eq!(f.path, "/p");
    assert_eq!(f.checksums, vec!["a".to_string(), "b".to_string()]);
    assert_eq!(f.modified_timestamp, 12);
    assert_eq!(f.size, 34);
    assert_eq!(f.permissions, None);
    assert!(!f.is_symlink);
    assert_eq!(f.symlink_target, None);

    let s = FileMeta::new_symlink("/l".to_string(), "/target".to_string());
    assert_eq!(s.path, "/l");
    assert!(s.checksums.is_empty());
    assert_eq!(s.modified_timestamp, 0);
    assert_eq!(s.size, 0);
    assert_eq!(s.permissions, None);
    assert!(s.is_symlink);
    assert_eq!(s.symlink_target, Some("/target".to_string()));

    let d = DirMeta::new("/d".to_string(), 77);
    assert_eq!(d.path, "/d");
    assert_eq!(d.modified_timestamp, 77);

    let old = qsync::file_meta::FileMeta::new("/o".to_string(), vec!["x".to_string()]);
    assert_eq!(old.path, "/o");
    assert_eq!(old.checksums, vec!["x".to_string()]);
}
