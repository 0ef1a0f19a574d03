//! The engine handle and the decisions taken around its calls: what is
//! handed to the engine, and what its replies become.
use vstd::prelude::*;

use crate::sdk::{check_status, failure_text, SdkOp};
use crate::text::{
    c_buffer_text, c_text_of, conversion_error, has_nul, utf8_bytes, lemma_conversion_error_at,
    to_cstring, CText,
};

verus! {

/// A started engine: how it was started, and the session opened by a login.
#[derive(Debug)]
pub struct Thunder {
    pub app_id: String,
    pub app_version: String,
    pub cfg_path: String,
    pub save_tasks: u8,
    pub session_id: Option<String>,
}

/// What the engine reports of a task's progress.
#[derive(Debug)]
pub struct TaskState {
    pub speed: u64,
    pub total_size: u64,
    pub downloaded_size: u64,
    pub state_code: String,
    pub task_err_code: u32,
    pub task_token_err: u32,
}

impl TaskState {
    /// The state record for the engine's counters, error codes and the
    /// description of its state code.
    pub fn new(
        speed: u64,
        total_size: u64,
        downloaded_size: u64,
        state_code: String,
        task_err_code: u32,
        task_token_err: u32,
    ) -> (s: TaskState)
        ensures
            s.speed == speed,
            s.total_size == total_size,
            s.downloaded_size == downloaded_size,
            s.state_code == state_code,
            s.task_err_code == task_err_code,
            s.task_token_err == task_token_err,
    {
        TaskState { speed, total_size, downloaded_size, state_code, task_err_code, task_token_err }
    }
}

/// The size of the buffer that receives the session id at login.
pub const SESSION_BUFFER_SIZE: usize = 4096;

/// The size of the buffer that receives the engine's version text.
pub const VERSION_BUFFER_SIZE: usize = 128;

/// The arguments of the engine's start-up call, as C strings, with the
/// texts they came from.
#[derive(Debug)]
pub struct InitRequest {
    pub app_id: CText,
    pub app_version: CText,
    pub cfg_path: CText,
    pub save_tasks: u8,
    pub app_id_text: String,
    pub app_version_text: String,
    pub cfg_path_text: String,
}

/// The arguments of the engine's call that creates a download task.
#[derive(Debug)]
pub struct P2spRequest {
    pub url: CText,
    pub save_path: CText,
    pub save_name: CText,
}

/// The text reported when no file name can be taken from a URL.
pub open spec fn no_file_name_text() -> Seq<char> {
    "无法截取文件名"@
}

/// The text, read as a path, ends in a `..` component: it is `..` or ends in
/// `/..`.
pub open spec fn ends_in_parent(path: Seq<char>) -> bool {
    path =~= seq!['.', '.'] || (path.len() >= 3 && path.subrange(path.len() - 3, path.len() as int)
        =~= seq!['/', '.', '.'])
}

/// The characters after the last `/` of a text (all of it when it holds
/// none).
pub open spec fn last_segment(p: Seq<char>) -> Seq<char>
    decreases p.len(),
{
    if p.len() == 0 {
        p
    } else if p.last() == '/' {
        Seq::empty()
    } else {
        last_segment(p.drop_last()).push(p.last())
    }
}

/// The text without the `/` characters it ends in.
pub open spec fn trim_trailing_slashes(p: Seq<char>) -> Seq<char>
    decreases p.len(),
{
    if p.len() > 0 && p.last() == '/' {
        trim_trailing_slashes(p.drop_last())
    } else {
        p
    }
}

/// The file name of a plain path: its last `/`-separated segment once the
/// trailing `/` characters are set aside (a path read as a directory is
/// named after it).
pub open spec fn plain_file_name(p: Seq<char>) -> Seq<char> {
    last_segment(trim_trailing_slashes(p))
}

/// A text that every platform reads as a path the same way, ending in a
/// file name: it holds no backslash, has no drive (`:` as second
/// character), does not start with `//`, and its last `/`-separated segment,
/// trailing `/` characters set aside, is a name: not empty, `.` or `..`.
pub open spec fn plain_named_path(p: Seq<char>) -> bool {
    &&& !p.contains('\\')
    &&& !(p.len() >= 2 && p[1] == ':')
    &&& !(p.len() >= 2 && p[0] == '/' && p[1] == '/')
    &&& plain_file_name(p).len() > 0
    &&& plain_file_name(p) != seq!['.']
    &&& plain_file_name(p) != seq!['.', '.']
}

/// Calls std's `Path::file_name` on the URL read as a path and turns the
/// name into a `String`.
///
/// Claims what std does on every platform: an empty path and a path that
/// ends in `..` have no file name (the latter stated for texts without a
/// backslash, which some platforms read specially), and a plain path whose
/// last segment (trailing `/` characters set aside, as std does) is a name
/// has that segment as its file name. Which name
/// other texts give depends on how the platform splits paths and is left
/// unsaid.
#[verifier::external_body]
fn url_file_name(url: &str) -> (name: Option<String>)
    ensures
        url@.len() == 0 ==> name is None,
        !url@.contains('\\') && ends_in_parent(url@) ==> name is None,
        plain_named_path(url@) ==> name is Some && name.unwrap()@ == plain_file_name(url@),
{
    std::path::Path::new(url).file_name().map(|f| f.to_string_lossy().to_string())
}

/// `r` is the request for a task that downloads `url` into `save_path`
/// under `name`, or the error of the first of the three texts, in that
/// order, that holds a zero byte.
pub open spec fn p2sp_outcome(
    url: Seq<char>,
    save_path: Seq<char>,
    name: Seq<char>,
    r: Result<P2spRequest, String>,
) -> bool {
    let texts = seq![utf8_bytes(url), utf8_bytes(save_path), utf8_bytes(name)];
    match r {
        Ok(req) => {
            &&& conversion_error(texts) is None
            &&& req.url@ == utf8_bytes(url)
            &&& req.save_path@ == utf8_bytes(save_path)
            &&& req.save_name@ == utf8_bytes(name)
        },
        Err(e) => conversion_error(texts) == Some(e@),
    }
}

/// A request that is the outcome of converting a URL, save path and name
/// holds exactly those three texts, and there is one exactly when none of
/// them holds a zero byte.
pub proof fn lemma_p2sp_outcome_fields(
    url: Seq<char>,
    save_path: Seq<char>,
    name: Seq<char>,
    r: Result<P2spRequest, String>,
)
    requires
        p2sp_outcome(url, save_path, name, r),
    ensures
        r is Ok <==> !has_nul(utf8_bytes(url)) && !has_nul(utf8_bytes(save_path)) && !has_nul(
            utf8_bytes(name),
        ),
        r matches Ok(req) ==> req.url@ == utf8_bytes(url) && req.save_path@ == utf8_bytes(
            save_path,
        ) && req.save_name@ == utf8_bytes(name),
{
    let texts = seq![utf8_bytes(url), utf8_bytes(save_path), utf8_bytes(name)];
    if has_nul(texts[0]) {
        lemma_conversion_error_at(texts, 0);
    } else if has_nul(texts[1]) {
        lemma_conversion_error_at(texts, 1);
    } else if has_nul(texts[2]) {
        lemma_conversion_error_at(texts, 2);
    } else {
        lemma_conversion_error_at(texts, 3);
    }
}

/// The last segment of a text is what follows its last `/`: a suffix of the
/// text that holds no `/`, and either is the whole text or comes right
/// after a `/`.
pub proof fn lemma_last_segment(p: Seq<char>)
    ensures
        last_segment(p).len() <= p.len(),
        last_segment(p) == p.subrange(p.len() - last_segment(p).len(), p.len() as int),
        !last_segment(p).contains('/'),
        last_segment(p).len() < p.len() ==> p[p.len() - last_segment(p).len() - 1] == '/',
    decreases p.len(),
{
    if p.len() > 0 && p.last() != '/' {
        let q = p.drop_last();
        lemma_last_segment(q);
        let l = last_segment(q);
        assert(last_segment(p) == l.push(p.last()));
        assert(last_segment(p) =~= p.subrange(p.len() - last_segment(p).len(), p.len() as int));
        assert forall|i: int| 0 <= i < last_segment(p).len() implies last_segment(p)[i] != '/' by {
            if i < l.len() {
                assert(!l.contains('/'));
                assert(l[i] != '/');
            }
        }
    } else if p.len() > 0 {
        assert(last_segment(p).len() == 0);
        assert(p.subrange(p.len() as int, p.len() as int) =~= Seq::<char>::empty());
    } else {
        assert(p.subrange(0, 0) =~= p);
    }
}

/// Setting aside the trailing `/` characters of a text leaves a prefix of it
/// that does not end in `/`, followed in the text only by `/` characters.
pub proof fn lemma_trim_trailing_slashes(p: Seq<char>)
    ensures
        trim_trailing_slashes(p).len() <= p.len(),
        trim_trailing_slashes(p) == p.take(trim_trailing_slashes(p).len() as int),
        trim_trailing_slashes(p).len() > 0 ==> trim_trailing_slashes(p).last() != '/',
        forall|i: int| trim_trailing_slashes(p).len() <= i < p.len() ==> p[i] == '/',
    decreases p.len(),
{
    if p.len() > 0 && p.last() == '/' {
        let q = p.drop_last();
        lemma_trim_trailing_slashes(q);
        assert(trim_trailing_slashes(p) =~= p.take(trim_trailing_slashes(p).len() as int));
        assert forall|i: int| trim_trailing_slashes(p).len() <= i < p.len() implies p[i] == '/' by {
            if i < q.len() {
                assert(p[i] == q[i]);
            }
        }
    } else {
        assert(p.take(p.len() as int) =~= p);
    }
}

/// Converts the arguments of a task creation: fails when no save name could
/// be had, and otherwise converts the URL, the save path and the save name,
/// in that order, failing at the first that holds a zero byte.
pub fn p2sp_request(url: &str, save_path: &str, save_name: Option<String>) -> (r: Result<
    P2spRequest,
    String,
>)
    ensures
        match save_name {
            None => r matches Err(e) && e@ == no_file_name_text(),
            Some(n) => {
                let texts = seq![utf8_bytes(url@), utf8_bytes(save_path@), utf8_bytes(n@)];
                match r {
                    Ok(req) => {
                        &&& conversion_error(texts) is None
                        &&& req.url@ == utf8_bytes(url@)
                        &&& req.save_path@ == utf8_bytes(save_path@)
                        &&& req.save_name@ == utf8_bytes(n@)
                    },
                    Err(e) => conversion_error(texts) == Some(e@),
                }
            },
        },
{
    let name = match save_name {
        Some(n) => n,
        None => {
            return Err(String::from_str("无法截取文件名"));
        },
    };
    let ghost texts = seq![utf8_bytes(url@), utf8_bytes(save_path@), utf8_bytes(name@)];
    let url_c = match to_cstring(url) {
        Ok(c) => c,
        Err(e) => {
            proof {
                lemma_conversion_error_at(texts, 0);
            }
            return Err(e);
        },
    };
    let path_c = match to_cstring(save_path) {
        Ok(c) => c,
        Err(e) => {
            proof {
                lemma_conversion_error_at(texts, 1);
            }
            return Err(e);
        },
    };
    let name_c = match to_cstring(name.as_str()) {
        Ok(c) => c,
        Err(e) => {
            proof {
                lemma_conversion_error_at(texts, 2);
            }
            return Err(e);
        },
    };
    proof {
        lemma_conversion_error_at(texts, 3);
    }
    Ok(P2spRequest { url: url_c, save_path: path_c, save_name: name_c })
}

impl Thunder {
    /// Converts the start-up arguments, in the order app id, version,
    /// configuration path, failing at the first that holds a zero byte.
    pub fn init_request(appid: &str, app_version: &str, cfg_path: &str, save_tasks: u8) -> (r:
        Result<InitRequest, String>)
        ensures
            match r {
                Ok(req) => {
                    &&& conversion_error(
                        seq![utf8_bytes(appid@), utf8_bytes(app_version@), utf8_bytes(cfg_path@)],
                    ) is None
                    &&& req.app_id@ == utf8_bytes(appid@)
                    &&& req.app_version@ == utf8_bytes(app_version@)
                    &&& req.cfg_path@ == utf8_bytes(cfg_path@)
                    &&& req.save_tasks == save_tasks
                    &&& req.app_id_text@ == appid@
                    &&& req.app_version_text@ == app_version@
                    &&& req.cfg_path_text@ == cfg_path@
                },
                Err(e) => conversion_error(
                    seq![utf8_bytes(appid@), utf8_bytes(app_version@), utf8_bytes(cfg_path@)],
                ) == Some(e@),
            },
    {
        let ghost texts = seq![utf8_bytes(appid@), utf8_bytes(app_version@), utf8_bytes(cfg_path@)];
        let app_id = match to_cstring(appid) {
            Ok(c) => c,
            Err(e) => {
                proof {
                    lemma_conversion_error_at(texts, 0);
                }
                return Err(e);
            },
        };
        let version = match to_cstring(app_version) {
            Ok(c) => c,
            Err(e) => {
                proof {
                    lemma_conversion_error_at(texts, 1);
                }
                return Err(e);
            },
        };
        let cfg = match to_cstring(cfg_path) {
            Ok(c) => c,
            Err(e) => {
                proof {
                    lemma_conversion_error_at(texts, 2);
                }
                return Err(e);
            },
        };
        proof {
            lemma_conversion_error_at(texts, 3);
        }
        Ok(
            InitRequest {
                app_id,
                app_version: version,
                cfg_path: cfg,
                save_tasks,
                app_id_text: appid.to_owned(),
                app_version_text: app_version.to_owned(),
                cfg_path_text: cfg_path.to_owned(),
            },
        )
    }

    /// Reads the status of the start-up call: on success, the engine handle
    /// for the arguments given, with no session yet.
    pub fn from_init_status(request: InitRequest, code: i32, code_text: &str) -> (r: Result<
        Thunder,
        String,
    >)
        ensures
            r is Ok <==> code == 0,
            match r {
                Ok(t) => {
                    &&& t.app_id == request.app_id_text
                    &&& t.app_version == request.app_version_text
                    &&& t.cfg_path == request.cfg_path_text
                    &&& t.save_tasks == request.save_tasks
                    &&& t.session_id is None
                },
                Err(e) => e@ == failure_text(SdkOp::Init, code_text@),
            },
    {
        match check_status(SdkOp::Init, code, code_text) {
            Ok(()) => Ok(
                Thunder {
                    app_id: request.app_id_text,
                    app_version: request.app_version_text,
                    cfg_path: request.cfg_path_text,
                    save_tasks: request.save_tasks,
                    session_id: None,
                },
            ),
            Err(e) => Err(e),
        }
    }

    /// Reads the reply to the login call: on success the session id is the
    /// C string at the start of `session_buf`; on failure the handle is left
    /// as it was.
    pub fn complete_login(&mut self, code: i32, code_text: &str, session_buf: &[u8]) -> (r:
        Result<(), String>)
        ensures
            r is Ok <==> code == 0,
            match r {
                Ok(()) => {
                    &&& final(self).app_id == old(self).app_id
                    &&& final(self).app_version == old(self).app_version
                    &&& final(self).cfg_path == old(self).cfg_path
                    &&& final(self).save_tasks == old(self).save_tasks
                    &&& final(self).session_id matches Some(s) && s@ == c_text_of(session_buf@)
                },
                Err(e) => {
                    &&& *final(self) == *old(self)
                    &&& e@ == failure_text(SdkOp::Login, code_text@)
                },
            },
    {
        match check_status(SdkOp::Login, code, code_text) {
            Ok(()) => {
                let session = c_buffer_text(session_buf);
                self.session_id = Some(session);
                Ok(())
            },
            Err(e) => Err(e),
        }
    }

    /// Converts the arguments of a task creation. The save name is the one
    /// given, or else the file name that the URL ends in; then the URL, the
    /// save path and the save name are converted in that order.
    pub fn create_task_request(&self, url: &str, save_path: &str, save_name: Option<&str>) -> (r:
        Result<P2spRequest, String>)
        ensures
            save_name matches Some(n) ==> p2sp_outcome(url@, save_path@, n@, r),
            save_name matches Some(n) ==> (r is Ok <==> conversion_error(
                seq![utf8_bytes(url@), utf8_bytes(save_path@), utf8_bytes(n@)],
            ) is None),
            save_name matches Some(n) ==> (r matches Ok(req) ==> req.url@ == utf8_bytes(url@)
                && req.save_path@ == utf8_bytes(save_path@) && req.save_name@ == utf8_bytes(n@)),
            save_name is None ==> (r matches Ok(req) ==> req.url@ == utf8_bytes(url@)
                && req.save_path@ == utf8_bytes(save_path@)),
            save_name is None && url@.len() == 0 ==> (r matches Err(e) && e@
                == no_file_name_text()),
            save_name is None && !url@.contains('\\') && ends_in_parent(url@) ==> (r matches Err(
                e,
            ) && e@ == no_file_name_text()),
            save_name is None && plain_named_path(url@) ==> p2sp_outcome(
                url@,
                save_path@,
                plain_file_name(url@),
                r,
            ),
            save_name is None && plain_named_path(url@) ==> (r is Ok <==> conversion_error(
                seq![
                    utf8_bytes(url@),
                    utf8_bytes(save_path@),
                    utf8_bytes(plain_file_name(url@)),
                ],
            ) is None),
            save_name is None && plain_named_path(url@) ==> (r matches Ok(req) ==> req.save_name@
                == utf8_bytes(plain_file_name(url@))),
    {
        let name = match save_name {
            Some(n) => Some(n.to_owned()),
            None => url_file_name(url),
        };
        p2sp_request(url, save_path, name)
    }

    /// Reads the reply to the version query: the C string in `buffer` when
    /// the code is zero, and the code itself otherwise.
    pub fn version_from_reply(code: i32, buffer: &[u8]) -> (r: Result<String, i32>)
        ensures
            match r {
                Ok(v) => code == 0 && v@ == c_text_of(buffer@),
                Err(c) => code != 0 && c == code,
            },
    {
        if code == 0 {
            Ok(c_buffer_text(buffer))
        } else {
            Err(code)
        }
    }
}

} // verus!
