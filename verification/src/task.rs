//! Task properties: how the byte buffers that the engine fills are decoded,
//! and the exchange that reads a task's description property by property.
use vstd::bytes::{lemma_auto_spec_u64_to_from_le_bytes, spec_u64_from_le_bytes, spec_u64_to_le_bytes};
use vstd::prelude::*;

use crate::sdk::{check_status, failure_text, SdkOp};
use crate::text::{c_buffer_text, c_text_of, has_nul, lemma_c_text_round_trip};
use vstd::utf8::encode_utf8;
use crate::thunder::Thunder;

verus! {

/// How much a task has downloaded from each kind of source.
#[derive(Debug)]
pub struct TrafficInfo {
    pub origin_size: u64,
    pub p2p_size: u64,
    pub p2s_size: u64,
    pub dcdn_size: u64,
}

/// A task's description.
#[derive(Debug)]
pub struct TaskInfo {
    pub url: String,
    pub save_name: String,
    pub save_path: String,
    pub traffic: TrafficInfo,
    pub creation_time: u64,
    pub completion_time: u64,
}

/// The size of the engine's traffic record: four 64-bit counters.
pub const TRAFFIC_RECORD_SIZE: usize = 32;

/// The traffic record with every counter at zero.
pub open spec fn zero_traffic() -> TrafficInfo {
    TrafficInfo { origin_size: 0, p2p_size: 0, p2s_size: 0, dcdn_size: 0 }
}

impl Default for TrafficInfo {
    fn default() -> (r: Self)
        ensures
            r == zero_traffic(),
    {
        TrafficInfo { origin_size: 0, p2p_size: 0, p2s_size: 0, dcdn_size: 0 }
    }
}

/// The first eight bytes of `buf`, padded with zeros when it is shorter.
pub open spec fn padded8(buf: Seq<u8>) -> Seq<u8> {
    Seq::new(8, |i: int| if i < buf.len() { buf[i] } else { 0u8 })
}

/// The little-endian number held in the first eight bytes of `buf`, the
/// missing bytes of a shorter buffer counting as zeros.
pub open spec fn le_u64(buf: Seq<u8>) -> u64 {
    spec_u64_from_le_bytes(padded8(buf))
}

/// The counter stored in the `k`-th eight-byte word of a traffic record.
pub open spec fn traffic_word(buf: Seq<u8>, k: int) -> u64 {
    le_u64(buf.subrange(8 * k, 8 * k + 8))
}

/// The traffic record held in `buf`: all zeros when the buffer is shorter
/// than a record, otherwise the four counters of its first 32 bytes in
/// little-endian order.
pub open spec fn traffic_of(buf: Seq<u8>) -> TrafficInfo {
    if buf.len() < TRAFFIC_RECORD_SIZE {
        zero_traffic()
    } else {
        TrafficInfo {
            origin_size: traffic_word(buf, 0),
            p2p_size: traffic_word(buf, 1),
            p2s_size: traffic_word(buf, 2),
            dcdn_size: traffic_word(buf, 3),
        }
    }
}

/// A number written as its eight little-endian bytes, followed by anything,
/// reads back as the same number.
pub proof fn lemma_le_u64_round_trip(x: u64, rest: Seq<u8>)
    ensures
        le_u64(spec_u64_to_le_bytes(x) + rest) == x,
{
    lemma_auto_spec_u64_to_from_le_bytes();
    let b = spec_u64_to_le_bytes(x);
    assert(padded8(b + rest) =~= b);
}

/// Four counters written one after the other as little-endian words,
/// followed by anything, read back as the same traffic record; a buffer too
/// short for a record reads as all zeros.
pub proof fn lemma_traffic_round_trip(t: TrafficInfo, rest: Seq<u8>)
    ensures
        traffic_of(
            spec_u64_to_le_bytes(t.origin_size) + spec_u64_to_le_bytes(t.p2p_size)
                + spec_u64_to_le_bytes(t.p2s_size) + spec_u64_to_le_bytes(t.dcdn_size) + rest,
        ) == t,
        forall|short: Seq<u8>| short.len() < TRAFFIC_RECORD_SIZE ==> #[trigger] traffic_of(short)
            == zero_traffic(),
{
    lemma_auto_spec_u64_to_from_le_bytes();
    let w0 = spec_u64_to_le_bytes(t.origin_size);
    let w1 = spec_u64_to_le_bytes(t.p2p_size);
    let w2 = spec_u64_to_le_bytes(t.p2s_size);
    let w3 = spec_u64_to_le_bytes(t.dcdn_size);
    let buf = w0 + w1 + w2 + w3 + rest;
    assert(padded8(buf.subrange(0, 8)) =~= w0);
    assert(padded8(buf.subrange(8, 16)) =~= w1);
    assert(padded8(buf.subrange(16, 24)) =~= w2);
    assert(padded8(buf.subrange(24, 32)) =~= w3);
}

/// A value that can be read from a buffer filled by the engine.
pub trait FromBuffer: Sized {
    /// `value` is what the buffer holding `buf` decodes to.
    spec fn decodes(buf: Seq<u8>, value: Self) -> bool;

    fn from_buffer(buf: Vec<u8>) -> (r: Self)
        ensures
            Self::decodes(buf@, r),
    ;
}

impl FromBuffer for String {
    /// A text is the C string at the start of the buffer.
    open spec fn decodes(buf: Seq<u8>, value: Self) -> bool {
        value@ == c_text_of(buf)
    }

    fn from_buffer(buf: Vec<u8>) -> (r: Self) {
        c_buffer_text(buf.as_slice())
    }
}

/// Reads the little-endian number in the first eight bytes of `buf`,
/// padding a shorter buffer with zeros.
fn le_u64_prefix(buf: &[u8]) -> (r: u64)
    ensures
        r == le_u64(buf@),
{
    let mut bytes: Vec<u8> = Vec::new();
    let mut i: usize = 0;
    while i < 8
        invariant
            i <= 8,
            bytes@.len() == i,
            forall|j: int| 0 <= j < i ==> bytes@[j] == padded8(buf@)[j],
        decreases 8 - i,
    {
        if i < buf.len() {
            bytes.push(buf[i]);
        } else {
            bytes.push(0);
        }
        i = i + 1;
    }
    assert(bytes@ =~= padded8(buf@));
    vstd::bytes::u64_from_le_bytes(bytes.as_slice())
}

impl FromBuffer for u64 {
    /// A number is little-endian in the first eight bytes of the buffer.
    open spec fn decodes(buf: Seq<u8>, value: Self) -> bool {
        value == le_u64(buf)
    }

    fn from_buffer(buf: Vec<u8>) -> (r: Self) {
        le_u64_prefix(buf.as_slice())
    }
}

fn traffic_word_at(buf: &[u8], k: usize) -> (r: u64)
    requires
        k < 4,
        buf@.len() >= TRAFFIC_RECORD_SIZE,
    ensures
        r == traffic_word(buf@, k as int),
{
    le_u64_prefix(vstd::slice::slice_subrange(buf, 8 * k, 8 * k + 8))
}

impl FromBuffer for TrafficInfo {
    /// A traffic record is the four counters of `traffic_of`.
    open spec fn decodes(buf: Seq<u8>, value: Self) -> bool {
        value == traffic_of(buf)
    }

    fn from_buffer(buf: Vec<u8>) -> (r: Self) {
        if buf.len() < TRAFFIC_RECORD_SIZE {
            return TrafficInfo { origin_size: 0, p2p_size: 0, p2s_size: 0, dcdn_size: 0 };
        }
        let b = buf.as_slice();
        TrafficInfo {
            origin_size: traffic_word_at(b, 0),
            p2p_size: traffic_word_at(b, 1),
            p2s_size: traffic_word_at(b, 2),
            dcdn_size: traffic_word_at(b, 3),
        }
    }
}

/// The text reported when the engine gives a property an empty size.
pub open spec fn empty_property_text() -> Seq<char> {
    "Length is 0"@
}

/// The text reported when the engine fails to fill a property's buffer.
pub open spec fn property_read_text(key: Seq<char>) -> Seq<char> {
    "获取"@ + key + "信息失败"@
}

/// Reads the reply to the query of a property's size: the buffer to
/// allocate has `len` bytes, unless the call failed or the size is zero.
///
/// A failed size query is reported under the same text as a failed
/// `SdkOp::SetConcurrentTaskCount`.
pub fn property_size(code: i32, code_text: &str, len: u32) -> (r: Result<usize, String>)
    ensures
        code != 0 ==> (r matches Err(e) && e@ == failure_text(
            SdkOp::SetConcurrentTaskCount,
            code_text@,
        )),
        code == 0 && len == 0 ==> (r matches Err(e) && e@ == empty_property_text()),
        code == 0 && len != 0 ==> r == Ok::<usize, String>(len as usize),
{
    match check_status(SdkOp::SetConcurrentTaskCount, code, code_text) {
        Err(e) => Err(e),
        Ok(()) => {
            if len == 0 {
                Err(String::from_str("Length is 0"))
            } else {
                Ok(len as usize)
            }
        },
    }
}

/// Reads the reply to the read of property `key`: on success, the value
/// that the filled buffer decodes to.
pub fn property_value<T: FromBuffer>(key: &str, code: i32, buffer: Vec<u8>) -> (r: Result<
    T,
    String,
>)
    ensures
        r is Ok <==> code == 0,
        match r {
            Ok(v) => T::decodes(buffer@, v),
            Err(e) => e@ == property_read_text(key@),
        },
{
    if code != 0 {
        Err(String::from_str("获取").concat(key).concat("信息失败"))
    } else {
        Ok(T::from_buffer(buffer))
    }
}

/// The number of properties that make up a task's description.
pub const TASK_INFO_PROPERTIES: usize = 6;

/// The key of the `i`-th property of a task's description, in the order in
/// which they are read.
pub open spec fn info_key(i: int) -> Seq<char> {
    if i == 0 {
        "url"@
    } else if i == 1 {
        "save_path"@
    } else if i == 2 {
        "save_name"@
    } else if i == 3 {
        "traffic"@
    } else if i == 4 {
        "creation_time"@
    } else {
        "completion_time"@
    }
}

fn info_key_str(i: usize) -> (k: &'static str)
    requires
        i < TASK_INFO_PROPERTIES,
    ensures
        k@ == info_key(i as int),
{
    if i == 0 {
        "url"
    } else if i == 1 {
        "save_path"
    } else if i == 2 {
        "save_name"
    } else if i == 3 {
        "traffic"
    } else if i == 4 {
        "creation_time"
    } else {
        "completion_time"
    }
}

/// `info` is the description that the six property buffers decode to.
pub open spec fn task_info_of(bufs: Seq<Seq<u8>>, info: TaskInfo) -> bool {
    &&& bufs.len() == TASK_INFO_PROPERTIES
    &&& info.url@ == c_text_of(bufs[0])
    &&& info.save_path@ == c_text_of(bufs[1])
    &&& info.save_name@ == c_text_of(bufs[2])
    &&& info.traffic == traffic_of(bufs[3])
    &&& info.creation_time == le_u64(bufs[4])
    &&& info.completion_time == le_u64(bufs[5])
}

/// The bytes of a traffic record as the engine writes it: the origin, P2P,
/// P2S and DCDN counters, one after the other, each as eight little-endian
/// bytes.
pub open spec fn traffic_record_bytes(t: TrafficInfo) -> Seq<u8> {
    spec_u64_to_le_bytes(t.origin_size) + spec_u64_to_le_bytes(t.p2p_size) + spec_u64_to_le_bytes(
        t.p2s_size,
    ) + spec_u64_to_le_bytes(t.dcdn_size)
}

/// The description read from six buffers gives back what the engine wrote
/// into them: the URL, save path and save name stored as C strings, the
/// traffic record with each counter in its own word (origin first, then
/// P2P, P2S, DCDN), and the creation and completion times as little-endian
/// numbers, whatever follows each of them in its buffer.
pub proof fn lemma_task_info_round_trip(
    bufs: Seq<Seq<u8>>,
    info: TaskInfo,
    url: Seq<char>,
    save_path: Seq<char>,
    save_name: Seq<char>,
    traffic: TrafficInfo,
    created: u64,
    completed: u64,
    rests: Seq<Seq<u8>>,
)
    requires
        task_info_of(bufs, info),
        rests.len() == TASK_INFO_PROPERTIES,
        !has_nul(encode_utf8(url)),
        !has_nul(encode_utf8(save_path)),
        !has_nul(encode_utf8(save_name)),
        bufs[0] == encode_utf8(url) + seq![0u8] + rests[0],
        bufs[1] == encode_utf8(save_path) + seq![0u8] + rests[1],
        bufs[2] == encode_utf8(save_name) + seq![0u8] + rests[2],
        bufs[3] == traffic_record_bytes(traffic) + rests[3],
        bufs[4] == spec_u64_to_le_bytes(created) + rests[4],
        bufs[5] == spec_u64_to_le_bytes(completed) + rests[5],
    ensures
        info.url@ == url,
        info.save_path@ == save_path,
        info.save_name@ == save_name,
        info.traffic.origin_size == traffic.origin_size,
        info.traffic.p2p_size == traffic.p2p_size,
        info.traffic.p2s_size == traffic.p2s_size,
        info.traffic.dcdn_size == traffic.dcdn_size,
        info.creation_time == created,
        info.completion_time == completed,
{
    lemma_c_text_round_trip(url, rests[0]);
    lemma_c_text_round_trip(save_path, rests[1]);
    lemma_c_text_round_trip(save_name, rests[2]);
    lemma_traffic_round_trip(traffic, rests[3]);
    assert(traffic_record_bytes(traffic) + rests[3] == spec_u64_to_le_bytes(traffic.origin_size)
        + spec_u64_to_le_bytes(traffic.p2p_size) + spec_u64_to_le_bytes(traffic.p2s_size)
        + spec_u64_to_le_bytes(traffic.dcdn_size) + rests[3]);
    lemma_le_u64_round_trip(created, rests[4]);
    lemma_le_u64_round_trip(completed, rests[5]);
}

/// What the engine is to be asked next about a property of a task: its
/// size, or to fill a buffer of `len` bytes with it.
#[derive(Debug)]
pub enum PropertyRequest {
    Size { tid: u64, key: &'static str },
    Read { tid: u64, key: &'static str, len: usize },
}

/// A description of a task being read: the task and the buffers of the
/// properties read so far.
#[derive(Debug)]
pub struct TaskInfoQuery {
    tid: u64,
    replies: Vec<Vec<u8>>,
}

/// The next step of reading a task's description: a request to perform,
/// with the query that awaits its reply, or the outcome.
#[derive(Debug)]
pub enum InfoStep {
    Ask(TaskInfoQuery, PropertyRequest),
    Done(Result<TaskInfo, String>),
}

impl TaskInfoQuery {
    #[verifier::type_invariant]
    spec fn in_progress(self) -> bool {
        self.replies@.len() < TASK_INFO_PROPERTIES
    }

    /// The task whose description is read.
    pub closed spec fn task_id(&self) -> u64 {
        self.tid
    }

    /// The buffers of the properties read so far, in key order.
    pub closed spec fn received(&self) -> Seq<Seq<u8>> {
        self.replies@.map_values(|v: Vec<u8>| v@)
    }

    /// The index of the property being read.
    pub open spec fn position(&self) -> int {
        self.received().len() as int
    }

    fn ask_size(self) -> (s: InfoStep)
        ensures
            s matches InfoStep::Ask(q, PropertyRequest::Size { tid, key }) && q == self && tid
                == self.task_id() && key@ == info_key(self.position()),
    {
        proof {
            use_type_invariant(&self);
        }
        let key = info_key_str(self.replies.len());
        let tid = self.tid;
        InfoStep::Ask(self, PropertyRequest::Size { tid, key })
    }

    /// Reads the reply to the size query of the current property: asks for
    /// its buffer, or ends when the call failed or the size is zero.
    pub fn on_size(self, code: i32, code_text: &str, len: u32) -> (s: InfoStep)
        ensures
            code != 0 ==> (s matches InfoStep::Done(Err(e)) && e@ == failure_text(
                SdkOp::SetConcurrentTaskCount,
                code_text@,
            )),
            code == 0 && len == 0 ==> (s matches InfoStep::Done(Err(e)) && e@
                == empty_property_text()),
            code == 0 && len != 0 ==> (s matches InfoStep::Ask(
                q,
                PropertyRequest::Read { tid, key, len: n },
            ) && q == self && tid == self.task_id() && key@ == info_key(self.position()) && n
                == len),
    {
        proof {
            use_type_invariant(&self);
        }
        match property_size(code, code_text, len) {
            Err(e) => InfoStep::Done(Err(e)),
            Ok(n) => {
                let key = info_key_str(self.replies.len());
                let tid = self.tid;
                InfoStep::Ask(self, PropertyRequest::Read { tid, key, len: n })
            },
        }
    }

    /// Reads the reply to the read of the current property: ends with the
    /// error when the call failed; otherwise keeps the buffer and asks for
    /// the size of the next property, or, after the last one, ends with the
    /// description the buffers decode to.
    pub fn on_value(self, code: i32, buffer: Vec<u8>) -> (s: InfoStep)
        ensures
            code != 0 ==> (s matches InfoStep::Done(Err(e)) && e@ == property_read_text(
                info_key(self.position()),
            )),
            code == 0 && self.position() + 1 < TASK_INFO_PROPERTIES ==> (s matches InfoStep::Ask(
                q,
                PropertyRequest::Size { tid, key },
            ) && q.task_id() == self.task_id() && q.received() == self.received().push(buffer@)
                && tid == self.task_id() && key@ == info_key(self.position() + 1)),
            code == 0 && self.position() + 1 == TASK_INFO_PROPERTIES ==> (s matches InfoStep::Done(
                Ok(info),
            ) && task_info_of(self.received().push(buffer@), info)),
    {
        proof {
            use_type_invariant(&self);
        }
        if code != 0 {
            let key = info_key_str(self.replies.len());
            return InfoStep::Done(Err(String::from_str("获取").concat(key).concat("信息失败")));
        }
        let ghost before = self.received();
        let TaskInfoQuery { tid, mut replies } = self;
        replies.push(buffer);
        assert(replies@.map_values(|v: Vec<u8>| v@) =~= before.push(buffer@));
        if replies.len() < TASK_INFO_PROPERTIES {
            let q = TaskInfoQuery { tid, replies };
            q.ask_size()
        } else {
            InfoStep::Done(Ok(assemble(replies)))
        }
    }
}

fn take_last(replies: &mut Vec<Vec<u8>>) -> (b: Vec<u8>)
    requires
        old(replies)@.len() > 0,
    ensures
        final(replies)@ == old(replies)@.drop_last(),
        b == old(replies)@.last(),
{
    match replies.pop() {
        Some(b) => b,
        None => Vec::new(),
    }
}

fn assemble(replies: Vec<Vec<u8>>) -> (info: TaskInfo)
    requires
        replies@.len() == TASK_INFO_PROPERTIES,
    ensures
        task_info_of(replies@.map_values(|v: Vec<u8>| v@), info),
{
    let ghost all = replies@;
    let mut replies = replies;
    let completion = take_last(&mut replies);
    let creation = take_last(&mut replies);
    let traffic = take_last(&mut replies);
    let save_name = take_last(&mut replies);
    let save_path = take_last(&mut replies);
    let url = take_last(&mut replies);
    assert(url == all[0] && save_path == all[1] && save_name == all[2]);
    assert(traffic == all[3] && creation == all[4] && completion == all[5]);
    TaskInfo {
        url: String::from_buffer(url),
        save_name: String::from_buffer(save_name),
        save_path: String::from_buffer(save_path),
        traffic: TrafficInfo::from_buffer(traffic),
        creation_time: u64::from_buffer(creation),
        completion_time: u64::from_buffer(completion),
    }
}

impl Thunder {
    /// Starts reading the description of task `tid`: the first request asks
    /// for the size of its URL. The keys are then read in the order URL,
    /// save path, save name, traffic, creation time, completion time, and
    /// the reading stops at the first failed reply.
    pub fn get_task_info(&self, tid: u64) -> (s: InfoStep)
        ensures
            s matches InfoStep::Ask(q, PropertyRequest::Size { tid: t, key }) && q.task_id()
                == tid && q.received() == Seq::<Seq<u8>>::empty() && t == tid && key@
                == info_key(0),
    {
        let q = TaskInfoQuery { tid, replies: Vec::new() };
        assert(q.received() =~= Seq::<Seq<u8>>::empty());
        q.ask_size()
    }
}

} // verus!
