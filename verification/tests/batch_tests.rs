use thunder::{BatchInfo, FileItem};

fn item(url: &str, path: &str, name: &str, hash: Option<&str>) -> FileItem {
    FileItem {
        url: url.to_string(),
        save_path: path.to_string(),
        save_name: name.to_string(),
        file_hash: hash.map(|h| h.to_string()),
    }
}

#[test]
fn new_batch_defaults_to_twenty() {
    let b = BatchInfo::new("movies".to_string(), None);
    assert_eq!(b.task_name, "movies");
    assert_eq!(b.max_concurrent, 20);
    assert_eq!(b.batch_files.file_count, 0);
    assert!(b.batch_files.file_items.is_empty());
}

#[test]
fn new_batch_keeps_given_concurrency() {
    let b = BatchInfo::new("x".to_string(), Some(3));
    assert_eq!(b.max_concurrent, 3);
    let b = BatchInfo::new("x".to_string(), Some(0));
    assert_eq!(b.max_concurrent, 0);
}

#[test]
fn add_file_appends_and_counts() {
    let mut b = BatchInfo::new("b".to_string(), Some(5));
    b.add_file(item("http://a/1", "D:/d", "1", None));
    b.add_file(item("http://a/2", "D:/d", "2", Some("abc")));
    assert_eq!(b.batch_files.file_count, 2);
    assert_eq!(b.batch_files.file_items.len(), 2);
    assert_eq!(b.batch_files.file_items[0].url, "http://a/1");
    assert_eq!(b.batch_files.file_items[1].file_hash.as_deref(), Some("abc"));
    assert_eq!(b.task_name, "b");
    assert_eq!(b.max_concurrent, 5);
}

#[test]
fn to_request_converts_every_file() {
    let mut b = BatchInfo::new("batch".to_string(), None);
    b.add_file(item("http://a/1", "D:/d", "one.bin", None));
    b.add_file(item("http://a/2", "D:/e", "two.bin", Some("h2")));
    let req = b.to_request().unwrap();
    assert_eq!(req.task_name.as_bytes(), b"batch");
    assert_eq!(req.max_concurrent, 20);
    assert_eq!(req.file_count, 2);
    assert_eq!(req.files.len(), 2);
    assert_eq!(req.files[0].url.as_bytes(), b"http://a/1");
    assert_eq!(req.files[0].save_path.as_bytes(), b"D:/d");
    assert_eq!(req.files[0].save_name.as_bytes(), b"one.bin");
    assert!(req.files[0].file_hash.is_none());
    assert_eq!(req.files[1].file_hash.as_ref().unwrap().as_bytes(), b"h2");
}

#[test]
fn to_request_of_empty_batch() {
    let b = BatchInfo::new("empty".to_string(), Some(1));
    let req = b.to_request().unwrap();
    assert_eq!(req.file_count, 0);
    assert!(req.files.is_empty());
}

#[test]
fn to_request_reports_first_bad_text_in_order() {
    let mut b = BatchInfo::new("bad\0name".to_string(), None);
    b.add_file(item("http://a/1", "D:/d", "ok", None));
    b.add_file(item("http://a/2", "D:/d", "n\0ame", Some("\0hash")));
    let err = b.to_request().unwrap_err();
    assert_eq!(err, "nul byte found in provided data at position: 1");
}

#[test]
fn to_request_reports_hash_error() {
    let mut b = BatchInfo::new("fine".to_string(), None);
    b.add_file(item("u", "p", "n", Some("ab\0")));
    assert_eq!(b.to_request().unwrap_err(), "nul byte found in provided data at position: 2");
}

#[test]
fn to_request_checks_task_name_last() {
    let mut b = BatchInfo::new("x\0".to_string(), None);
    b.add_file(item("u", "p", "n", None));
    assert_eq!(b.to_request().unwrap_err(), "nul byte found in provided data at position: 1");
}

#[test]
fn files_info_count_follows_list() {
    let mut f = thunder::FilesInfo::new();
    assert_eq!(f.file_count, 0);
    f.file_count = 99;
    f.add_file(item("u", "p", "n", None));
    assert_eq!(f.file_count, 1);
    assert_eq!(f.file_items.len(), 1);
    f.add_file(item("u2", "p", "n2", None));
    assert_eq!(f.file_count, 2);
    assert_eq!(f.file_items[1].url, "u2");
}
