//! Calls into the download engine and how their status codes read: zero is
//! success; any other code is a failure, reported as a text that names the
//! call and then describes the code.
use vstd::prelude::*;

verus! {

/// The engine calls whose status code the library interprets.
#[derive(Clone, Copy, Debug, PartialEq, Eq, Structural)]
pub enum SdkOp {
    /// `init`: starting the engine
    Init,
    /// `uninit`: shutting the engine down
    Uninit,
    /// `login`: opening a session
    Login,
    /// listing the unfinished tasks
    GetUnfinishedTasks,
    /// listing the finished tasks
    GetFinishedTasks,
    /// creating a download task
    CreateTask,
    /// creating a batch task
    CreateBatchTask,
    /// starting a task
    StartTask,
    /// stopping a task
    StopTask,
    /// deleting a task
    DeleteTask,
    /// reading a task's state
    GetTaskState,
    /// setting how many tasks run at once
    SetConcurrentTaskCount,
    /// setting the download speed limit
    SetDownloadSpeedLimit,
    /// switching P2P upload
    SetUploadSwitch,
    /// setting the upload speed limit
    SetUploadSpeedLimit,
}

/// The text that opens the report of a failed call.
pub open spec fn failure_prefix(op: SdkOp) -> Seq<char> {
    match op {
        SdkOp::Init => "初始化失败： "@,
        SdkOp::Uninit => "返初始化失败： "@,
        SdkOp::Login => "login fial： "@,
        SdkOp::GetUnfinishedTasks => "获取失败： "@,
        SdkOp::GetFinishedTasks => "获取失败： "@,
        SdkOp::CreateTask => "创建任务失败: "@,
        SdkOp::CreateBatchTask => "创建批量任务失败: "@,
        SdkOp::StartTask => "任务开始失败： "@,
        SdkOp::StopTask => "任务停止失败： "@,
        SdkOp::DeleteTask => "任务删除失败： "@,
        SdkOp::GetTaskState => "获取状态失败："@,
        SdkOp::SetConcurrentTaskCount => "设置最大同时进行的下载任务数失败："@,
        SdkOp::SetDownloadSpeedLimit => "设置下载限速失败："@,
        SdkOp::SetUploadSwitch => "切换P2P上传失败："@,
        SdkOp::SetUploadSpeedLimit => "设置上传限速失败："@,
    }
}

impl SdkOp {
    /// The text that opens the report of a failure of this call.
    pub fn failure_prefix(&self) -> (s: &'static str)
        ensures
            s@ == failure_prefix(*self),
    {
        match self {
            SdkOp::Init => "初始化失败： ",
            SdkOp::Uninit => "返初始化失败： ",
            SdkOp::Login => "login fial： ",
            SdkOp::GetUnfinishedTasks => "获取失败： ",
            SdkOp::GetFinishedTasks => "获取失败： ",
            SdkOp::CreateTask => "创建任务失败: ",
            SdkOp::CreateBatchTask => "创建批量任务失败: ",
            SdkOp::StartTask => "任务开始失败： ",
            SdkOp::StopTask => "任务停止失败： ",
            SdkOp::DeleteTask => "任务删除失败： ",
            SdkOp::GetTaskState => "获取状态失败：",
            SdkOp::SetConcurrentTaskCount => "设置最大同时进行的下载任务数失败：",
            SdkOp::SetDownloadSpeedLimit => "设置下载限速失败：",
            SdkOp::SetUploadSwitch => "切换P2P上传失败：",
            SdkOp::SetUploadSpeedLimit => "设置上传限速失败：",
        }
    }
}

/// The engine's integer form of a yes/no argument: 1 for yes, 0 for no, as
/// `delete_task` (whether to delete the downloaded files) and
/// `set_upload_switch` (whether P2P upload is on) pass it.
pub fn engine_flag(value: bool) -> (flag: i32)
    ensures
        flag == if value {
            1i32
        } else {
            0i32
        },
{
    if value {
        1
    } else {
        0
    }
}

/// The report of a failed call: the call's prefix followed by the
/// description of the code.
pub open spec fn failure_text(op: SdkOp, code_text: Seq<char>) -> Seq<char> {
    failure_prefix(op) + code_text
}

/// Reads the status code returned by `op`: success exactly when it is zero;
/// otherwise the error is the call's prefix followed by `code_text`, the
/// engine's description of the code.
pub fn check_status(op: SdkOp, code: i32, code_text: &str) -> (r: Result<(), String>)
    ensures
        r is Ok <==> code == 0,
        r matches Err(e) ==> e@ == failure_text(op, code_text@),
{
    if code == 0 {
        Ok(())
    } else {
        Err(String::from_str(op.failure_prefix()).concat(code_text))
    }
}

} // verus!
