use agentx::error::{
    agent_not_found, classify_request_failure, config_error, error_from_grpc_parts,
    grpc_status_parts, log_error, node_not_found, service_not_found, wrap_error, ClusterError,
    ClusterResult, ErrorContext, GrpcCode,
};

#[test]
fn test_error_display() {
    let error = ClusterError::ConfigError("测试配置错误".to_string());
    assert_eq!(error.to_string(), "配置错误: 测试配置错误");
}

#[test]
fn test_error_conversion() {
    let io_error = std::io::Error::new(std::io::ErrorKind::NotFound, "文件未找到");
    let cluster_error: ClusterError = io_error.into();

    match cluster_error {
        ClusterError::IoError(_) => (),
        _ => panic!("错误类型转换失败"),
    }
}

#[test]
fn test_error_context() {
    let result: Result<(), std::io::Error> = Err(std::io::Error::new(
        std::io::ErrorKind::PermissionDenied,
        "权限被拒绝",
    ));

    let with_context = result.context("读取配置文件时");
    assert!(with_context.is_err());

    let error = with_context.unwrap_err();
    assert!(error.to_string().contains("读取配置文件时"));
}

#[test]
fn test_tonic_status_conversion() {
    let error = ClusterError::AgentNotFound("test-agent".to_string());
    let status: tonic::Status = error.into();
    assert_eq!(status.code(), tonic::Code::NotFound);
}

#[test]
fn test_error_utils() {
    let error = config_error("测试配置错误");
    match error {
        ClusterError::ConfigError(msg) => assert_eq!(msg, "测试配置错误"),
        _ => panic!("错误类型不匹配"),
    }

    let error = agent_not_found("test-agent");
    match error {
        ClusterError::AgentNotFound(id) => assert_eq!(id, "test-agent"),
        _ => panic!("错误类型不匹配"),
    }
}

#[test]
fn error_report_of_every_kind_has_heading_and_detail() {
    assert_eq!(node_not_found("n1").to_string(), "节点未找到: n1");
    assert_eq!(service_not_found("s1").to_string(), "服务未找到: s1");
    assert_eq!(ClusterError::TaskError("x".to_string()).to_string(), "任务错误: x");
}

#[test]
fn context_on_success_passes_value_through() {
    let ok: Result<u32, std::io::Error> = Ok(7);
    assert_eq!(ok.context("ignored").unwrap(), 7);
}

#[test]
fn context_on_internal_error_keeps_its_detail_only() {
    let r: ClusterResult<()> = Err(ClusterError::InternalError("boom".to_string()));
    let e = r.with_context(|| "step".to_string()).unwrap_err();
    assert_eq!(e.to_string(), "内部错误: step: boom");
    let r2: ClusterResult<()> = Err(ClusterError::LockError("held".to_string()));
    let e2 = r2.context("outer").unwrap_err();
    assert_eq!(e2.to_string(), "内部错误: outer: 锁错误: held");
}

#[test]
fn log_error_returns_the_error() {
    let r: ClusterResult<u8> = log_error(ClusterError::LockError("l".to_string()));
    assert_eq!(r.unwrap_err().to_string(), "锁错误: l");
}

#[test]
fn wrap_error_puts_context_first() {
    let io = std::io::Error::new(std::io::ErrorKind::Other, "disk");
    let e = wrap_error(io, "saving");
    assert_eq!(e.to_string(), "内部错误: saving: disk");
}

#[test]
fn request_failures_are_classified() {
    assert!(matches!(classify_request_failure(true, true, "t".to_string()), ClusterError::TimeoutError(_)));
    assert!(matches!(classify_request_failure(false, true, "c".to_string()), ClusterError::ConnectionError(_)));
    assert!(matches!(classify_request_failure(false, false, "n".to_string()), ClusterError::NetworkError(_)));
}

#[test]
fn grpc_parts_of_each_mapped_kind() {
    let (c, m) = grpc_status_parts(&ClusterError::ConfigError("bad".to_string()));
    assert_eq!(c, GrpcCode::InvalidArgument);
    assert_eq!(m, "bad");
    let (c, m) = grpc_status_parts(&ClusterError::LockError("held".to_string()));
    assert_eq!(c, GrpcCode::Internal);
    assert_eq!(m, "锁错误: held");
    let (c, _) = grpc_status_parts(&ClusterError::UnsupportedBackend("x".to_string()));
    assert_eq!(c, GrpcCode::Unimplemented);
}

#[test]
fn grpc_status_turns_back_into_errors() {
    let status = tonic::Status::not_found("svc");
    let e: ClusterError = status.into();
    assert!(matches!(e, ClusterError::ServiceNotFound(ref m) if m == "svc"));
    let status = tonic::Status::aborted("why");
    let e: ClusterError = status.into();
    assert_eq!(e.to_string(), "内部错误: The operation was aborted: why");
    let e = error_from_grpc_parts(GrpcCode::Unavailable, "down".to_string());
    assert!(matches!(e, ClusterError::ConnectionError(_)));
}

#[test]
fn grpc_round_trip_keeps_kind_and_detail() {
    let status: tonic::Status = ClusterError::PermissionError("no".to_string()).into();
    let back: ClusterError = status.into();
    assert!(matches!(back, ClusterError::PermissionError(ref m) if m == "no"));
}

#[test]
fn uuid_and_json_errors_convert() {
    let bad = uuid::Uuid::parse_str("not-a-uuid").unwrap_err();
    let e: ClusterError = bad.into();
    assert!(e.to_string().starts_with("内部错误: UUID错误: "));
    let json = serde_json::from_str::<u32>("x").unwrap_err();
    let e: ClusterError = json.into();
    assert!(matches!(e, ClusterError::SerializationError(_)));
}

#[test]
fn converted_errors_keep_their_report() {
    let io_error = std::io::Error::new(std::io::ErrorKind::NotFound, "文件未找到");
    let cluster_error: ClusterError = io_error.into();
    assert!(matches!(cluster_error, ClusterError::IoError(ref m) if m == "文件未找到"));

    let result: Result<(), std::io::Error> =
        Err(std::io::Error::new(std::io::ErrorKind::PermissionDenied, "权限被拒绝"));
    match result.context("读取配置文件时") {
        Err(ClusterError::InternalError(m)) => assert_eq!(m, "读取配置文件时: IO错误: 权限被拒绝"),
        other => panic!("unexpected {:?}", other),
    }
    let fine: Result<u8, std::io::Error> = Ok(7);
    assert!(matches!(fine.context("x"), Ok(7)));
}
