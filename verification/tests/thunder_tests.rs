use thunder::{p2sp_request, Thunder};

fn started() -> Thunder {
    let req = Thunder::init_request("app", "1.0.1", "D:/ThunderConfig", 1).unwrap();
    Thunder::from_init_status(req, 0, "").unwrap()
}

#[test]
fn init_request_converts_in_order() {
    let req = Thunder::init_request("app", "1.0.1", "D:/cfg", 0).unwrap();
    assert_eq!(req.app_id.as_bytes(), b"app");
    assert_eq!(req.app_version.as_bytes(), b"1.0.1");
    assert_eq!(req.cfg_path.as_bytes(), b"D:/cfg");
    assert_eq!(req.save_tasks, 0);
    let err = Thunder::init_request("app", "1\0", "\0", 0).unwrap_err();
    assert_eq!(err, "nul byte found in provided data at position: 1");
}

#[test]
fn init_success_builds_handle() {
    let t = started();
    assert_eq!(t.app_id, "app");
    assert_eq!(t.app_version, "1.0.1");
    assert_eq!(t.cfg_path, "D:/ThunderConfig");
    assert_eq!(t.save_tasks, 1);
    assert!(t.session_id.is_none());
}

#[test]
fn init_failure_reports_code() {
    let req = Thunder::init_request("app", "1.0.1", "D:/cfg", 1).unwrap();
    let err = Thunder::from_init_status(req, 7, "code 7").err().unwrap();
    assert_eq!(err, "初始化失败： code 7");
}

#[test]
fn login_reads_session_from_buffer() {
    let mut t = started();
    let mut buf = vec![0u8; 4096];
    buf[..6].copy_from_slice(b"sess01");
    assert!(t.complete_login(0, "", &buf).is_ok());
    assert_eq!(t.session_id.as_deref(), Some("sess01"));
}

#[test]
fn failed_login_keeps_handle() {
    let mut t = started();
    let err = t.complete_login(5, "expired", b"whatever\0").unwrap_err();
    assert_eq!(err, "login fial： expired");
    assert!(t.session_id.is_none());
    assert_eq!(t.app_id, "app");
}

#[test]
fn create_task_with_given_name() {
    let t = started();
    let req = t.create_task_request("https://example.com/file.zip", "D:/Downloads", Some("my_file.zip")).unwrap();
    assert_eq!(req.url.as_bytes(), b"https://example.com/file.zip");
    assert_eq!(req.save_path.as_bytes(), b"D:/Downloads");
    assert_eq!(req.save_name.as_bytes(), b"my_file.zip");
}

#[test]
fn create_task_takes_name_from_url() {
    let t = started();
    let req = t.create_task_request("https://example.com/file.zip", "D:/Downloads", None).unwrap();
    assert_eq!(req.save_name.as_bytes(), b"file.zip");
}

#[test]
fn create_task_without_file_name_fails() {
    let t = started();
    let err = t.create_task_request("https://example.com/..", "D:/Downloads", None).err().unwrap();
    assert_eq!(err, "无法截取文件名");
    let err = t.create_task_request("", "D:/Downloads", None).err().unwrap();
    assert_eq!(err, "无法截取文件名");
}

#[test]
fn create_task_reports_first_bad_text() {
    let t = started();
    let err = t.create_task_request("http://a/b", "D:\0/x", Some("n\0")).err().unwrap();
    assert_eq!(err, "nul byte found in provided data at position: 2");
}

#[test]
fn p2sp_request_needs_a_name() {
    assert_eq!(p2sp_request("u", "p", None).err().unwrap(), "无法截取文件名");
    let req = p2sp_request("u", "p", Some("n".to_string())).unwrap();
    assert_eq!(req.save_name.as_bytes(), b"n");
}

#[test]
fn version_reply() {
    let mut buf = vec![0u8; 128];
    buf[..5].copy_from_slice(b"2.3.4");
    assert_eq!(Thunder::version_from_reply(0, &buf), Ok("2.3.4".to_string()));
    assert_eq!(Thunder::version_from_reply(-2, &buf), Err(-2));
}

#[test]
fn create_task_empty_url_without_name_fails() {
    let t = started();
    let err = t.create_task_request("", "/d", None).err().unwrap();
    assert_eq!(err, "无法截取文件名");
}

#[test]
fn create_task_names_from_plain_paths() {
    let t = started();
    let req = t.create_task_request("ftp://host/dir/sub/data.tar.gz", "/d", None).unwrap();
    assert_eq!(req.save_name.as_bytes(), b"data.tar.gz");
    let req = t.create_task_request("file.zip", "/d", None).unwrap();
    assert_eq!(req.save_name.as_bytes(), b"file.zip");
}

#[test]
fn task_state_new_keeps_fields() {
    let s = thunder::TaskState::new(1, 2, 3, "running".to_string(), 4, 5);
    assert_eq!((s.speed, s.total_size, s.downloaded_size), (1, 2, 3));
    assert_eq!(s.state_code, "running");
    assert_eq!((s.task_err_code, s.task_token_err), (4, 5));
}

#[test]
fn create_task_names_from_directory_url() {
    let t = started();
    let req = t.create_task_request("https://example.com/", "/d", None).unwrap();
    assert_eq!(req.save_name.as_bytes(), b"example.com");
    let req = t.create_task_request("ftp://host/dir//", "/d", None).unwrap();
    assert_eq!(req.save_name.as_bytes(), b"dir");
}
