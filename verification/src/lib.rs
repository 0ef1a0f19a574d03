//! Verified core of a client for the Thunder (Xunlei) download engine.
//!
//! The engine itself is a native library; this crate holds what is decided
//! around its calls: the texts handed to it as C strings, the batch and task
//! requests built for it, how its status codes and filled buffers are read,
//! the step-by-step exchanges that read a task's description and send a set
//! of HTTP headers, and the claims of the login token.
pub mod batch_task;
pub mod headers;
pub mod sdk;
pub mod task;
pub mod text;
pub mod thunder;
pub mod token;

pub use batch_task::{BatchInfo, BatchRequest, FileItem, FileRow, FilesInfo};
pub use headers::{HeaderRequest, HeaderStep, HeaderUpload};
pub use sdk::{check_status, SdkOp};
pub use task::{
    property_size, property_value, FromBuffer, InfoStep, PropertyRequest, TaskInfo, TaskInfoQuery,
    TrafficInfo,
};
pub use text::{c_buffer_text, decimal_string, to_cstring, CText};
pub use thunder::{p2sp_request, InitRequest, P2spRequest, TaskState, Thunder};
pub use token::{claims_at, current_claims, Claims, ClaimsError};
