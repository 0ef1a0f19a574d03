use thunder::{property_size, property_value, FromBuffer, InfoStep, PropertyRequest, TaskInfo, Thunder, TrafficInfo};

fn handle() -> Thunder {
    let req = Thunder::init_request("app", "1", "cfg", 0).unwrap();
    Thunder::from_init_status(req, 0, "").unwrap()
}

fn traffic_bytes(a: u64, b: u64, c: u64, d: u64) -> Vec<u8> {
    let mut v = Vec::new();
    for x in [a, b, c, d] {
        v.extend_from_slice(&x.to_le_bytes());
    }
    v
}

#[test]
fn string_from_buffer_reads_c_string() {
    assert_eq!(String::from_buffer(b"http://x/y\0\0\0".to_vec()), "http://x/y");
    assert_eq!(String::from_buffer(b"no-nul".to_vec()), "no-nul");
}

#[test]
fn u64_from_buffer_is_little_endian() {
    assert_eq!(u64::from_buffer(0x0102030405060708u64.to_le_bytes().to_vec()), 0x0102030405060708);
    assert_eq!(u64::from_buffer(vec![0x34, 0x12]), 0x1234);
    assert_eq!(u64::from_buffer(vec![]), 0);
    let mut long = 42u64.to_le_bytes().to_vec();
    long.extend_from_slice(&[0xff; 4]);
    assert_eq!(u64::from_buffer(long), 42);
}

#[test]
fn traffic_from_buffer() {
    let t = TrafficInfo::from_buffer(traffic_bytes(1, 2, 3, u64::MAX));
    assert_eq!((t.origin_size, t.p2p_size, t.p2s_size, t.dcdn_size), (1, 2, 3, u64::MAX));
}

#[test]
fn short_traffic_buffer_reads_zero() {
    let t = TrafficInfo::from_buffer(vec![0xff; 31]);
    assert_eq!((t.origin_size, t.p2p_size, t.p2s_size, t.dcdn_size), (0, 0, 0, 0));
    let d = TrafficInfo::default();
    assert_eq!((d.origin_size, d.p2p_size, d.p2s_size, d.dcdn_size), (0, 0, 0, 0));
}

#[test]
fn property_size_decisions() {
    assert_eq!(property_size(0, "", 12), Ok(12));
    assert_eq!(property_size(0, "", 0), Err("Length is 0".to_string()));
    assert_eq!(property_size(9, "E9", 12), Err("设置最大同时进行的下载任务数失败：E9".to_string()));
}

#[test]
fn property_value_decisions() {
    let v: Result<u64, String> = property_value("creation_time", 0, 5u64.to_le_bytes().to_vec());
    assert_eq!(v, Ok(5));
    let e: Result<String, String> = property_value("url", 1, vec![]);
    assert_eq!(e, Err("获取url信息失败".to_string()));
}

fn run_task_info(replies: &[(i32, u32, Vec<u8>)]) -> (Vec<String>, Result<TaskInfo, String>) {
    let mut keys = Vec::new();
    let mut step = handle().get_task_info(77);
    let mut i = 0;
    loop {
        match step {
            InfoStep::Done(r) => return (keys, r),
            InfoStep::Ask(q, PropertyRequest::Size { tid, key }) => {
                assert_eq!(tid, 77);
                keys.push(key.to_string());
                let (code, len, _) = &replies[i];
                step = q.on_size(*code, "E", *len);
            }
            InfoStep::Ask(q, PropertyRequest::Read { tid, key, len }) => {
                assert_eq!(tid, 77);
                assert_eq!(key, keys.last().unwrap().as_str());
                let (_, l, buf) = &replies[i];
                assert_eq!(len, *l as usize);
                step = q.on_value(0, buf.clone());
                i += 1;
            }
        }
    }
}

#[test]
fn task_info_reads_six_properties_in_order() {
    let replies = vec![
        (0, 12, b"http://a/b.c\0".to_vec()),
        (0, 8, b"D:/down\0".to_vec()),
        (0, 6, b"b.c\0\0\0".to_vec()),
        (0, 32, traffic_bytes(10, 20, 30, 40)),
        (0, 8, 1000u64.to_le_bytes().to_vec()),
        (0, 8, 2000u64.to_le_bytes().to_vec()),
    ];
    let (keys, r) = run_task_info(&replies);
    assert_eq!(keys, ["url", "save_path", "save_name", "traffic", "creation_time", "completion_time"]);
    let info = r.unwrap();
    assert_eq!(info.url, "http://a/b.c");
    assert_eq!(info.save_path, "D:/down");
    assert_eq!(info.save_name, "b.c");
    assert_eq!(info.traffic.p2p_size, 20);
    assert_eq!(info.traffic.dcdn_size, 40);
    assert_eq!(info.creation_time, 1000);
    assert_eq!(info.completion_time, 2000);
}

#[test]
fn task_info_stops_at_empty_property() {
    let replies = vec![(0, 4, b"url\0".to_vec()), (0, 0, vec![])];
    let (keys, r) = run_task_info(&replies);
    assert_eq!(keys, ["url", "save_path"]);
    assert_eq!(r.err().unwrap(), "Length is 0");
}

#[test]
fn task_info_stops_at_failed_size_query() {
    let replies = vec![(3, 4, vec![])];
    let (keys, r) = run_task_info(&replies);
    assert_eq!(keys, ["url"]);
    assert_eq!(r.err().unwrap(), "设置最大同时进行的下载任务数失败：E");
}

#[test]
fn task_info_stops_at_failed_read() {
    let step = handle().get_task_info(5);
    let q = match step {
        InfoStep::Ask(q, PropertyRequest::Size { .. }) => q,
        _ => panic!("expected a size request"),
    };
    let q = match q.on_size(0, "", 9) {
        InfoStep::Ask(q, PropertyRequest::Read { len, .. }) => {
            assert_eq!(len, 9);
            q
        }
        _ => panic!("expected a read request"),
    };
    match q.on_value(1, vec![]) {
        InfoStep::Done(Err(e)) => assert_eq!(e, "获取url信息失败"),
        _ => panic!("expected failure"),
    }
}
