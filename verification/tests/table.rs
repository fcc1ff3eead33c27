use efs::fs::{make_content_bytes, make_filename_bytes, FileSystem};
use efs::{EfsError, CONTENT_LENGTH, FILENAME_LENGTH, MAX_FILES};

fn name_buf(s: &str) -> Vec<u8> {
    make_filename_bytes(&s.as_bytes().to_vec()).unwrap()
}

fn content_buf(s: &str) -> Vec<u8> {
    make_content_bytes(&s.as_bytes().to_vec()).unwrap()
}

#[test]
fn new_table_counts() {
    let fs = FileSystem::new();
    let info = fs.get_info();
    assert_eq!(info.total_inodes(), MAX_FILES as u16);
    assert_eq!(info.used_inodes(), 0);
    assert_eq!(info.free_space(), MAX_FILES as u16);
}

#[test]
fn read_empty_table_not_found() {
    let fs = FileSystem::new();
    assert_eq!(fs.read_file(&name_buf("nothing")), Err(EfsError::NotFound));
}

#[test]
fn round_trip() {
    let mut fs = FileSystem::new();
    let name = name_buf("a.txt");
    let content = content_buf("Hey! This is my file. And it is awesome.");
    assert_eq!(fs.add_file(&name, &content), Ok(()));
    assert_eq!(fs.read_file(&name), Ok(content));
}

#[test]
fn counters_track_creates_and_deletes() {
    let mut fs = FileSystem::new();
    let name = name_buf("counted.txt");
    let content = content_buf("payload");
    assert_eq!(fs.add_file(&name, &content), Ok(()));
    assert_eq!(fs.get_info().used_inodes(), 1);
    assert_eq!(fs.get_info().free_space(), MAX_FILES as u16 - 1);
    assert_eq!(fs.delete_file(&name), Ok(()));
    assert_eq!(fs.get_info().used_inodes(), 0);
    assert_eq!(fs.get_info().free_space(), MAX_FILES as u16);
    assert_eq!(
        fs.get_info().used_inodes() + fs.get_info().free_space(),
        fs.get_info().total_inodes()
    );
}

#[test]
fn capacity_exhausted_after_full_table() {
    let mut fs = FileSystem::new();
    let content = content_buf("same content everywhere");
    for k in 0..MAX_FILES {
        let name = name_buf(&format!("file{k}.txt"));
        assert_eq!(fs.add_file(&name, &content), Ok(()));
    }
    assert_eq!(fs.get_info().free_space(), 0);
    assert_eq!(fs.get_info().used_inodes(), MAX_FILES as u16);
    let extra = name_buf("one-too-many.txt");
    assert_eq!(fs.add_file(&extra, &content), Err(EfsError::CapacityExhausted));
    assert_eq!(fs.get_info().free_space(), 0);
    assert_eq!(fs.get_info().used_inodes(), MAX_FILES as u16);
}

#[test]
fn delete_then_read_not_found() {
    let mut fs = FileSystem::new();
    let name = name_buf("fleeting.txt");
    let content = content_buf("soon gone");
    assert_eq!(fs.add_file(&name, &content), Ok(()));
    assert_eq!(fs.delete_file(&name), Ok(()));
    assert_eq!(fs.read_file(&name), Err(EfsError::NotFound));
}

#[test]
fn delete_unknown_name_fails_and_changes_nothing() {
    let mut fs = FileSystem::new();
    let kept = name_buf("kept.txt");
    assert_eq!(fs.add_file(&kept, &content_buf("stays")), Ok(()));
    let used_before = fs.get_info().used_inodes();
    let free_before = fs.get_info().free_space();
    assert_eq!(fs.delete_file(&name_buf("never-created")), Err(EfsError::NotFound));
    assert_eq!(fs.get_info().used_inodes(), used_before);
    assert_eq!(fs.get_info().free_space(), free_before);
}

#[test]
fn duplicate_names_first_match_wins() {
    let mut fs = FileSystem::new();
    let name = name_buf("x");
    let first = content_buf("A");
    let second = content_buf("B");
    assert_eq!(fs.add_file(&name, &first), Ok(()));
    assert_eq!(fs.add_file(&name, &second), Ok(()));
    assert_eq!(fs.get_info().used_inodes(), 2);
    assert_eq!(fs.read_file(&name), Ok(first));
    assert_eq!(fs.delete_file(&name), Ok(()));
    assert_eq!(fs.read_file(&name), Ok(second.clone()));
    assert_eq!(fs.delete_file(&name), Ok(()));
    assert_eq!(fs.read_file(&name), Err(EfsError::NotFound));
}

#[test]
fn freed_slot_is_reused() {
    let mut fs = FileSystem::new();
    assert_eq!(fs.add_file(&name_buf("a"), &content_buf("first")), Ok(()));
    assert_eq!(fs.add_file(&name_buf("b"), &content_buf("second")), Ok(()));
    assert_eq!(fs.delete_file(&name_buf("a")), Ok(()));
    assert_eq!(fs.get_info().used_inodes(), 1);
    let replacement = content_buf("third");
    assert_eq!(fs.add_file(&name_buf("c"), &replacement), Ok(()));
    assert_eq!(fs.get_info().used_inodes(), 2);
    assert_eq!(fs.read_file(&name_buf("c")), Ok(replacement));
    assert_eq!(fs.read_file(&name_buf("b")), Ok(content_buf("second")));
}

#[test]
fn over_long_name_rejected() {
    let long_name: Vec<u8> = vec![b'n'; FILENAME_LENGTH + 1];
    assert_eq!(make_filename_bytes(&long_name), Err(EfsError::ValueTooLarge));
    let exact: Vec<u8> = vec![b'n'; FILENAME_LENGTH];
    assert_eq!(make_filename_bytes(&exact), Ok(exact));
}

#[test]
fn over_long_content_rejected() {
    let long_content: Vec<u8> = vec![b'c'; CONTENT_LENGTH + 1];
    assert_eq!(make_content_bytes(&long_content), Err(EfsError::ValueTooLarge));
    let exact: Vec<u8> = vec![b'c'; CONTENT_LENGTH];
    assert_eq!(make_content_bytes(&exact), Ok(exact));
}

#[test]
fn encoding_pads_with_zeros() {
    let encoded = name_buf("ab");
    assert_eq!(encoded.len(), FILENAME_LENGTH);
    assert_eq!(&encoded[..2], b"ab");
    assert!(encoded[2..].iter().all(|&b| b == 0));
    let encoded = content_buf("ab");
    assert_eq!(encoded.len(), CONTENT_LENGTH);
    assert_eq!(&encoded[..2], b"ab");
    assert!(encoded[2..].iter().all(|&b| b == 0));
}

#[test]
fn names_compared_over_full_buffer() {
    let mut fs = FileSystem::new();
    assert_eq!(fs.add_file(&name_buf("ab"), &content_buf("data")), Ok(()));
    assert_eq!(fs.read_file(&name_buf("a")), Err(EfsError::NotFound));
    assert_eq!(fs.read_file(&name_buf("abc")), Err(EfsError::NotFound));
    assert_eq!(fs.read_file(&name_buf("ab")), Ok(content_buf("data")));
}
