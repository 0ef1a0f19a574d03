//! HTTP headers that the engine adds to a task's download requests: one
//! header per engine call, and a whole set of them one after the other.
use std::collections::HashMap;
use vstd::prelude::*;

use crate::text::{conversion_error, lemma_conversion_error_at, to_cstring, utf8_bytes, CText};
use crate::thunder::Thunder;

verus! {

/// The arguments of the engine call that sets one header of a task, with
/// the header's name as given.
#[derive(Debug)]
pub struct HeaderRequest {
    pub tid: u64,
    pub key: CText,
    pub value: CText,
    pub name: String,
}

/// The report of a failed header call: it names the header.
pub open spec fn header_failure_text(key: Seq<char>, code_text: Seq<char>) -> Seq<char> {
    "设置 Header "@ + key + " 失败: "@ + code_text
}

/// The texts of a header in conversion order: name, then value.
pub open spec fn header_texts(k: Seq<char>, v: Seq<char>) -> Seq<Seq<u8>> {
    seq![utf8_bytes(k), utf8_bytes(v)]
}

impl HeaderRequest {
    /// Converts the header `k: v` of task `tid` for the engine, the name
    /// first, failing at the first text that holds a zero byte.
    pub fn new(tid: u64, k: &str, v: &str) -> (r: Result<
        HeaderRequest,
        String,
    >)
        ensures
            match r {
                Ok(req) => {
                    &&& conversion_error(header_texts(k@, v@)) is None
                    &&& req.tid == tid
                    &&& req.key@ == utf8_bytes(k@)
                    &&& req.value@ == utf8_bytes(v@)
                    &&& req.name@ == k@
                },
                Err(e) => conversion_error(header_texts(k@, v@)) == Some(e@),
            },
    {
        let ghost texts = header_texts(k@, v@);
        let key = match to_cstring(k) {
            Ok(c) => c,
            Err(e) => {
                proof {
                    lemma_conversion_error_at(texts, 0);
                }
                return Err(e);
            },
        };
        let value = match to_cstring(v) {
            Ok(c) => c,
            Err(e) => {
                proof {
                    lemma_conversion_error_at(texts, 1);
                }
                return Err(e);
            },
        };
        proof {
            lemma_conversion_error_at(texts, 2);
        }
        Ok(HeaderRequest { tid, key, value, name: k.to_owned() })
    }
}

impl Thunder {
    /// Converts the header `k: v` of task `tid` for the engine, as
    /// `HeaderRequest::new` does.
    pub fn set_http_header_request(&self, tid: u64, k: &str, v: &str) -> (r: Result<
        HeaderRequest,
        String,
    >)
        ensures
            match r {
                Ok(req) => {
                    &&& conversion_error(header_texts(k@, v@)) is None
                    &&& req.tid == tid
                    &&& req.key@ == utf8_bytes(k@)
                    &&& req.value@ == utf8_bytes(v@)
                    &&& req.name@ == k@
                },
                Err(e) => conversion_error(header_texts(k@, v@)) == Some(e@),
            },
    {
        HeaderRequest::new(tid, k, v)
    }
}

impl HeaderRequest {
    /// Reads the status of the header call: success exactly when the code is
    /// zero; the error names the header.
    pub fn outcome(&self, code: i32, code_text: &str) -> (r: Result<(), String>)
        ensures
            r is Ok <==> code == 0,
            r matches Err(e) ==> e@ == header_failure_text(self.name@, code_text@),
    {
        if code == 0 {
            Ok(())
        } else {
            Err(
                String::from_str("设置 Header ").concat(self.name.as_str()).concat(
                    " 失败: ",
                ).concat(code_text),
            )
        }
    }
}

/// `entries` lists the pairs of `headers`, each exactly once.
pub open spec fn lists_headers(entries: Seq<(String, String)>, headers: Map<String, String>) -> bool {
    &&& headers.dom().finite()
    &&& entries.len() == headers.len()
    &&& forall|i: int|
        0 <= i < entries.len() ==> headers.contains_key(#[trigger] entries[i].0)
            && headers[entries[i].0] == entries[i].1
    &&& forall|i: int, j: int|
        0 <= i < j < entries.len() ==> #[trigger] entries[i].0 != #[trigger] entries[j].0
}

/// A listing of a map's pairs leaves none out: every pair of the map is in
/// it.
pub proof fn lemma_every_header_listed(entries: Seq<(String, String)>, headers: Map<String, String>)
    requires
        lists_headers(entries, headers),
    ensures
        forall|k: String|
            #[trigger] headers.contains_key(k) ==> exists|i: int|
                0 <= i < entries.len() && entries[i].0 == k && entries[i].1 == headers[k],
{
    broadcast use vstd::seq_lib::group_seq_properties;

    let keys = entries.map_values(|e: (String, String)| e.0);
    assert(keys.no_duplicates()) by {
        assert forall|i: int, j: int|
            0 <= i < keys.len() && 0 <= j < keys.len() && i != j implies keys[i] != keys[j] by {
            if i < j {
                assert(entries[i].0 != entries[j].0);
            } else {
                assert(entries[j].0 != entries[i].0);
            }
        }
    }
    keys.unique_seq_to_set();
    assert forall|k: String| keys.to_set().contains(k) implies headers.dom().contains(k) by {
        let i = choose|i: int| 0 <= i < keys.len() && keys[i] == k;
        assert(headers.contains_key(entries[i].0));
    }
    vstd::set_lib::lemma_subset_equality(keys.to_set(), headers.dom());
    assert forall|k: String| #[trigger] headers.contains_key(k) implies exists|i: int|
        0 <= i < entries.len() && entries[i].0 == k && entries[i].1 == headers[k] by {
        assert(keys.to_set().contains(k));
        let i = choose|i: int| 0 <= i < keys.len() && keys[i] == k;
        assert(entries[i].0 == k);
    }
}

/// Moves the pairs out of a `HashMap` through std's `into_iter`.
///
/// Claims what std documents of every walk: each pair comes out exactly
/// once. The order is left unsaid.
#[verifier::external_body]
fn map_entries(headers: HashMap<String, String>) -> (entries: Vec<(String, String)>)
    ensures
        lists_headers(entries@, headers@),
{
    headers.into_iter().collect()
}

/// A set of headers being sent to the engine one at a time: the task, the
/// headers in sending order, and how many have been accepted.
#[derive(Debug)]
pub struct HeaderUpload {
    tid: u64,
    entries: Vec<(String, String)>,
    next: usize,
}

/// The next step of sending a set of headers: a header call to perform,
/// with the upload that awaits its status, or the outcome.
#[derive(Debug)]
pub enum HeaderStep {
    Send(HeaderUpload, HeaderRequest),
    Done(Result<(), String>),
}

impl HeaderUpload {
    #[verifier::type_invariant]
    spec fn within(self) -> bool {
        self.next <= self.entries@.len()
    }

    /// The task the headers are for.
    pub closed spec fn task_id(&self) -> u64 {
        self.tid
    }

    /// The headers in sending order.
    pub closed spec fn entries(&self) -> Seq<(String, String)> {
        self.entries@
    }

    /// How many headers the engine has accepted.
    pub closed spec fn sent(&self) -> int {
        self.next as int
    }

    /// Prepares the next header: ends successfully when all are accepted;
    /// otherwise converts the next one, ending with the conversion's error
    /// if it fails.
    pub fn advance(self) -> (s: HeaderStep)
        ensures
            self.sent() >= self.entries().len() ==> s == HeaderStep::Done(Ok::<(), String>(())),
            self.sent() < self.entries().len() ==> ({
                let (k, v) = self.entries()[self.sent()];
                match conversion_error(header_texts(k@, v@)) {
                    Some(e) => s matches HeaderStep::Done(Err(m)) && m@ == e,
                    None => s matches HeaderStep::Send(u, req) && u == self && req.tid
                        == self.task_id() && req.key@ == utf8_bytes(k@) && req.value@
                        == utf8_bytes(v@) && req.name@ == k@,
                }
            }),
    {
        proof {
            use_type_invariant(&self);
        }
        if self.next >= self.entries.len() {
            return HeaderStep::Done(Ok(()));
        }
        let r = {
            let (k, v) = &self.entries[self.next];
            HeaderRequest::new(self.tid, k.as_str(), v.as_str())
        };
        match r {
            Ok(req) => HeaderStep::Send(self, req),
            Err(e) => HeaderStep::Done(Err(e)),
        }
    }

    /// Reads the status of the call for the next header: ends with the
    /// error naming it when the call failed, and otherwise counts it as
    /// accepted.
    pub fn on_reply(self, code: i32, code_text: &str) -> (r: Result<HeaderUpload, String>)
        requires
            self.sent() < self.entries().len(),
        ensures
            r is Ok <==> code == 0,
            match r {
                Ok(u) => {
                    &&& u.task_id() == self.task_id()
                    &&& u.entries() == self.entries()
                    &&& u.sent() == self.sent() + 1
                },
                Err(e) => e@ == header_failure_text(
                    self.entries()[self.sent()].0@,
                    code_text@,
                ),
            },
    {
        proof {
            use_type_invariant(&self);
        }
        if code == 0 {
            let len = self.entries.len();
            assert(self.next < len);
            Ok(HeaderUpload { tid: self.tid, entries: self.entries, next: self.next + 1 })
        } else {
            let name = &self.entries[self.next].0;
            Err(
                String::from_str("设置 Header ").concat(name.as_str()).concat(" 失败: ").concat(
                    code_text,
                ),
            )
        }
    }
}

impl Thunder {
    /// Starts sending `headers` for task `tid`: none is accepted yet, and
    /// each pair of the map is sent once, in the order the map is walked.
    pub fn set_http_headers(&self, tid: u64, headers: HashMap<String, String>) -> (u:
        HeaderUpload)
        ensures
            u.task_id() == tid,
            u.sent() == 0,
            lists_headers(u.entries(), headers@),
    {
        let entries = map_entries(headers);
        HeaderUpload { tid, entries, next: 0 }
    }
}

} // verus!
