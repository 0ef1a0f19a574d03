use thunder::{check_status, SdkOp};

#[test]
fn zero_status_is_success() {
    assert_eq!(check_status(SdkOp::StartTask, 0, "ignored"), Ok(()));
}

#[test]
fn failure_texts_name_the_call() {
    assert_eq!(check_status(SdkOp::Init, 3, "E3").unwrap_err(), "初始化失败： E3");
    assert_eq!(check_status(SdkOp::Uninit, 3, "E3").unwrap_err(), "返初始化失败： E3");
    assert_eq!(check_status(SdkOp::Login, -1, "bad").unwrap_err(), "login fial： bad");
    assert_eq!(check_status(SdkOp::GetUnfinishedTasks, 1, "x").unwrap_err(), "获取失败： x");
    assert_eq!(check_status(SdkOp::GetFinishedTasks, 1, "x").unwrap_err(), "获取失败： x");
    assert_eq!(check_status(SdkOp::CreateTask, 1, "x").unwrap_err(), "创建任务失败: x");
    assert_eq!(check_status(SdkOp::CreateBatchTask, 1, "x").unwrap_err(), "创建批量任务失败: x");
    assert_eq!(check_status(SdkOp::StartTask, 1, "x").unwrap_err(), "任务开始失败： x");
    assert_eq!(check_status(SdkOp::StopTask, 1, "x").unwrap_err(), "任务停止失败： x");
    assert_eq!(check_status(SdkOp::DeleteTask, 1, "x").unwrap_err(), "任务删除失败： x");
    assert_eq!(check_status(SdkOp::GetTaskState, 1, "x").unwrap_err(), "获取状态失败：x");
    assert_eq!(
        check_status(SdkOp::SetConcurrentTaskCount, 1, "x").unwrap_err(),
        "设置最大同时进行的下载任务数失败：x"
    );
    assert_eq!(check_status(SdkOp::SetDownloadSpeedLimit, 1, "x").unwrap_err(), "设置下载限速失败：x");
    assert_eq!(check_status(SdkOp::SetUploadSwitch, 1, "x").unwrap_err(), "切换P2P上传失败：x");
    assert_eq!(check_status(SdkOp::SetUploadSpeedLimit, 1, "x").unwrap_err(), "设置上传限速失败：x");
}

#[test]
fn negative_codes_fail_too() {
    assert!(check_status(SdkOp::StopTask, i32::MIN, "").is_err());
}

#[test]
fn engine_flag_is_one_or_zero() {
    assert_eq!(thunder::sdk::engine_flag(true), 1);
    assert_eq!(thunder::sdk::engine_flag(false), 0);
}
