//! Errors of the cluster layer, their reports, and the conversions from the
//! errors of the crates it talks to.
use vstd::prelude::*;
use vstd::std_specs::convert::FromSpecImpl;

verus! {

/// An error of the cluster layer; each kind carries a human-readable detail.
#[derive(Debug)]
pub enum ClusterError {
    /// Invalid or missing configuration.
    ConfigError(String),
    /// A network failure.
    NetworkError(String),
    /// A failure of service discovery.
    ServiceDiscoveryError(String),
    /// A failure of the load balancer.
    LoadBalancerError(String),
    /// A failure while managing nodes.
    NodeManagementError(String),
    /// A failure of a health check.
    HealthCheckError(String),
    /// A failure while synchronising cluster state.
    StateSyncError(String),
    /// A backend that is not supported.
    UnsupportedBackend(String),
    /// No agent with the given id.
    AgentNotFound(String),
    /// No node with the given id.
    NodeNotFound(String),
    /// No service with the given id.
    ServiceNotFound(String),
    /// A connection could not be made.
    ConnectionError(String),
    /// An operation ran out of time.
    TimeoutError(String),
    /// Credentials were refused.
    AuthenticationError(String),
    /// An operation was not permitted.
    PermissionError(String),
    /// A resource ran out.
    ResourceExhaustedError(String),
    /// An internal failure.
    InternalError(String),
    /// A value could not be serialised.
    SerializationError(String),
    /// A value could not be deserialised.
    DeserializationError(String),
    /// An input/output failure.
    IoError(String),
    /// A database failure.
    DatabaseError(String),
    /// A lock could not be taken.
    LockError(String),
    /// A background task failed.
    TaskError(String),
}

impl ClusterError {
    /// The heading under which an error of this kind is reported.
    pub open spec fn heading(&self) -> Seq<char> {
        match self {
            ClusterError::ConfigError(_) => "配置错误"@,
            ClusterError::NetworkError(_) => "网络错误"@,
            ClusterError::ServiceDiscoveryError(_) => "服务发现错误"@,
            ClusterError::LoadBalancerError(_) => "负载均衡错误"@,
            ClusterError::NodeManagementError(_) => "节点管理错误"@,
            ClusterError::HealthCheckError(_) => "健康检查错误"@,
            ClusterError::StateSyncError(_) => "状态同步错误"@,
            ClusterError::UnsupportedBackend(_) => "不支持的后端"@,
            ClusterError::AgentNotFound(_) => "Agent未找到"@,
            ClusterError::NodeNotFound(_) => "节点未找到"@,
            ClusterError::ServiceNotFound(_) => "服务未找到"@,
            ClusterError::ConnectionError(_) => "连接错误"@,
            ClusterError::TimeoutError(_) => "超时错误"@,
            ClusterError::AuthenticationError(_) => "认证错误"@,
            ClusterError::PermissionError(_) => "权限错误"@,
            ClusterError::ResourceExhaustedError(_) => "资源不足错误"@,
            ClusterError::InternalError(_) => "内部错误"@,
            ClusterError::SerializationError(_) => "序列化错误"@,
            ClusterError::DeserializationError(_) => "反序列化错误"@,
            ClusterError::IoError(_) => "IO错误"@,
            ClusterError::DatabaseError(_) => "数据库错误"@,
            ClusterError::LockError(_) => "锁错误"@,
            ClusterError::TaskError(_) => "任务错误"@,
        }
    }

    /// The detail that the error carries.
    pub open spec fn detail(&self) -> Seq<char> {
        match self {
            ClusterError::ConfigError(m) => m@,
            ClusterError::NetworkError(m) => m@,
            ClusterError::ServiceDiscoveryError(m) => m@,
            ClusterError::LoadBalancerError(m) => m@,
            ClusterError::NodeManagementError(m) => m@,
            ClusterError::HealthCheckError(m) => m@,
            ClusterError::StateSyncError(m) => m@,
            ClusterError::UnsupportedBackend(m) => m@,
            ClusterError::AgentNotFound(m) => m@,
            ClusterError::NodeNotFound(m) => m@,
            ClusterError::ServiceNotFound(m) => m@,
            ClusterError::ConnectionError(m) => m@,
            ClusterError::TimeoutError(m) => m@,
            ClusterError::AuthenticationError(m) => m@,
            ClusterError::PermissionError(m) => m@,
            ClusterError::ResourceExhaustedError(m) => m@,
            ClusterError::InternalError(m) => m@,
            ClusterError::SerializationError(m) => m@,
            ClusterError::DeserializationError(m) => m@,
            ClusterError::IoError(m) => m@,
            ClusterError::DatabaseError(m) => m@,
            ClusterError::LockError(m) => m@,
            ClusterError::TaskError(m) => m@,
        }
    }

    /// The full report of the error: its heading, a colon and its detail.
    pub open spec fn text(&self) -> Seq<char> {
        self.heading() + ": "@ + self.detail()
    }

    /// The heading of this error.
    pub fn heading_str(&self) -> (r: &'static str)
        ensures
            r@ == self.heading(),
    {
        match self {
            ClusterError::ConfigError(_) => "配置错误",
            ClusterError::NetworkError(_) => "网络错误",
            ClusterError::ServiceDiscoveryError(_) => "服务发现错误",
            ClusterError::LoadBalancerError(_) => "负载均衡错误",
            ClusterError::NodeManagementError(_) => "节点管理错误",
            ClusterError::HealthCheckError(_) => "健康检查错误",
            ClusterError::StateSyncError(_) => "状态同步错误",
            ClusterError::UnsupportedBackend(_) => "不支持的后端",
            ClusterError::AgentNotFound(_) => "Agent未找到",
            ClusterError::NodeNotFound(_) => "节点未找到",
            ClusterError::ServiceNotFound(_) => "服务未找到",
            ClusterError::ConnectionError(_) => "连接错误",
            ClusterError::TimeoutError(_) => "超时错误",
            ClusterError::AuthenticationError(_) => "认证错误",
            ClusterError::PermissionError(_) => "权限错误",
            ClusterError::ResourceExhaustedError(_) => "资源不足错误",
            ClusterError::InternalError(_) => "内部错误",
            ClusterError::SerializationError(_) => "序列化错误",
            ClusterError::DeserializationError(_) => "反序列化错误",
            ClusterError::IoError(_) => "IO错误",
            ClusterError::DatabaseError(_) => "数据库错误",
            ClusterError::LockError(_) => "锁错误",
            ClusterError::TaskError(_) => "任务错误",
        }
    }

    /// The detail carried by this error.
    pub fn detail_str(&self) -> (r: &str)
        ensures
            r@ == self.detail(),
    {
        match self {
            ClusterError::ConfigError(m) => m.as_str(),
            ClusterError::NetworkError(m) => m.as_str(),
            ClusterError::ServiceDiscoveryError(m) => m.as_str(),
            ClusterError::LoadBalancerError(m) => m.as_str(),
            ClusterError::NodeManagementError(m) => m.as_str(),
            ClusterError::HealthCheckError(m) => m.as_str(),
            ClusterError::StateSyncError(m) => m.as_str(),
            ClusterError::UnsupportedBackend(m) => m.as_str(),
            ClusterError::AgentNotFound(m) => m.as_str(),
            ClusterError::NodeNotFound(m) => m.as_str(),
            ClusterError::ServiceNotFound(m) => m.as_str(),
            ClusterError::ConnectionError(m) => m.as_str(),
            ClusterError::TimeoutError(m) => m.as_str(),
            ClusterError::AuthenticationError(m) => m.as_str(),
            ClusterError::PermissionError(m) => m.as_str(),
            ClusterError::ResourceExhaustedError(m) => m.as_str(),
            ClusterError::InternalError(m) => m.as_str(),
            ClusterError::SerializationError(m) => m.as_str(),
            ClusterError::DeserializationError(m) => m.as_str(),
            ClusterError::IoError(m) => m.as_str(),
            ClusterError::DatabaseError(m) => m.as_str(),
            ClusterError::LockError(m) => m.as_str(),
            ClusterError::TaskError(m) => m.as_str(),
        }
    }

    /// The full report of this error, as its `Display` would print it.
    pub fn to_string(&self) -> (r: String)
        ensures
            r@ == self.text(),
    {
        let mut s = String::from_str(self.heading_str());
        s.append(": ");
        s.append(self.detail_str());
        s
    }
}


/// Result of an operation of the cluster layer.
pub type ClusterResult<T> = Result<T, ClusterError>;

/// What a context message is followed by when it is put in front of an error:
/// the detail of an internal error, the full report of any other.
pub open spec fn context_tail(e: ClusterError) -> Seq<char> {
    match e {
        ClusterError::InternalError(m) => m@,
        _ => e.text(),
    }
}

/// An internal error whose detail is `context`, a colon, and the tail of `base`.
pub fn with_context_message(context: String, base: ClusterError) -> (r: ClusterError)
    ensures
        r matches ClusterError::InternalError(m) && m@ == context@ + ": "@ + context_tail(base),
{
    let mut s = context;
    s.append(": ");
    match base {
        ClusterError::InternalError(m) => {
            s.append(m.as_str());
        },
        other => {
            let t = other.to_string();
            s.append(t.as_str());
        },
    }
    ClusterError::InternalError(s)
}

/// Adds context to the error of a result.
pub trait ErrorContext<T>: Sized {
    /// Puts the text that `f` produces in front of the error, turning it into an
    /// internal error; a success is passed on unchanged.
    fn with_context<F: FnOnce() -> String>(self, f: F) -> (r: ClusterResult<T>)
        requires
            f.requires(()),
    ;

    /// Puts `msg` in front of the error, turning it into an internal error; a
    /// success is passed on unchanged.
    fn context(self, msg: &'static str) -> (r: ClusterResult<T>)
    ;
}

impl<T, E: Into<ClusterError>> ErrorContext<T> for Result<T, E> {
    fn with_context<F: FnOnce() -> String>(self, f: F) -> (r: ClusterResult<T>)
        ensures
            self is Ok ==> (r matches Ok(v) && v == self->Ok_0),
            self is Err ==> exists|c: String, base: ClusterError|
                #![trigger f.ensures((), c), context_tail(base)]
                f.ensures((), c) && call_ensures(<E as Into<ClusterError>>::into, (self->Err_0,), base)
                    && (r matches Err(ClusterError::InternalError(m)) && m@ == c@ + ": "@ + context_tail(base)),
    {
        match self {
            Ok(v) => Ok(v),
            Err(e) => {
                let base: ClusterError = e.into();
                let c = f();
                let r = with_context_message(c, base);
                proof {
                    assert(f.ensures((), c));
                }
                Err(r)
            },
        }
    }

    fn context(self, msg: &'static str) -> (r: ClusterResult<T>)
        ensures
            self is Ok ==> (r matches Ok(v) && v == self->Ok_0),
            self is Err ==> exists|base: ClusterError|
                #![trigger context_tail(base)]
                call_ensures(<E as Into<ClusterError>>::into, (self->Err_0,), base)
                    && (r matches Err(ClusterError::InternalError(m)) && m@ == msg@ + ": "@ + context_tail(base)),
    {
        match self {
            Ok(v) => Ok(v),
            Err(e) => {
                let base: ClusterError = e.into();
                Err(with_context_message(String::from_str(msg), base))
            },
        }
    }
}

/// Hands an error back as the failure of a result.
pub fn log_error<T>(error: ClusterError) -> (r: ClusterResult<T>)
    ensures
        r matches Err(e) && e == error,
{
    Err(error)
}

/// An internal error whose detail is `context`, a colon and the report of `error`.
pub fn wrap_error<E: core::fmt::Display>(error: E, context: &str) -> (r: ClusterError)
    ensures
        exists|t: String|
            #![trigger vstd::string::to_string_from_display_ensures::<E>(&error, t)]
            vstd::string::to_string_from_display_ensures::<E>(&error, t)
            && (r matches ClusterError::InternalError(m) && m@ == context@ + ": "@ + t@),
{
    let t = error.to_string();
    let mut s = String::from_str(context);
    s.append(": ");
    s.append(t.as_str());
    ClusterError::InternalError(s)
}

/// A configuration error with the given detail.
pub fn config_error(msg: &str) -> (r: ClusterError)
    ensures
        r matches ClusterError::ConfigError(m) && m@ == msg@,
{
    ClusterError::ConfigError(String::from_str(msg))
}

/// A network error with the given detail.
pub fn network_error(msg: &str) -> (r: ClusterError)
    ensures
        r matches ClusterError::NetworkError(m) && m@ == msg@,
{
    ClusterError::NetworkError(String::from_str(msg))
}

/// A service discovery error with the given detail.
pub fn service_discovery_error(msg: &str) -> (r: ClusterError)
    ensures
        r matches ClusterError::ServiceDiscoveryError(m) && m@ == msg@,
{
    ClusterError::ServiceDiscoveryError(String::from_str(msg))
}

/// A load balancer error with the given detail.
pub fn load_balancer_error(msg: &str) -> (r: ClusterError)
    ensures
        r matches ClusterError::LoadBalancerError(m) && m@ == msg@,
{
    ClusterError::LoadBalancerError(String::from_str(msg))
}

/// A node management error with the given detail.
pub fn node_management_error(msg: &str) -> (r: ClusterError)
    ensures
        r matches ClusterError::NodeManagementError(m) && m@ == msg@,
{
    ClusterError::NodeManagementError(String::from_str(msg))
}

/// A health check error with the given detail.
pub fn health_check_error(msg: &str) -> (r: ClusterError)
    ensures
        r matches ClusterError::HealthCheckError(m) && m@ == msg@,
{
    ClusterError::HealthCheckError(String::from_str(msg))
}

/// A state synchronisation error with the given detail.
pub fn state_sync_error(msg: &str) -> (r: ClusterError)
    ensures
        r matches ClusterError::StateSyncError(m) && m@ == msg@,
{
    ClusterError::StateSyncError(String::from_str(msg))
}

/// The error for an agent id that is not known.
pub fn agent_not_found(agent_id: &str) -> (r: ClusterError)
    ensures
        r matches ClusterError::AgentNotFound(m) && m@ == agent_id@,
{
    ClusterError::AgentNotFound(String::from_str(agent_id))
}

/// The error for a node id that is not known.
pub fn node_not_found(node_id: &str) -> (r: ClusterError)
    ensures
        r matches ClusterError::NodeNotFound(m) && m@ == node_id@,
{
    ClusterError::NodeNotFound(String::from_str(node_id))
}

/// The error for a service id that is not known.
pub fn service_not_found(service_id: &str) -> (r: ClusterError)
    ensures
        r matches ClusterError::ServiceNotFound(m) && m@ == service_id@,
{
    ClusterError::ServiceNotFound(String::from_str(service_id))
}

// ---------------------------------------------------------------------------
// Conversions from the errors of other crates.
// ---------------------------------------------------------------------------

#[verifier::external_type_specification]
#[verifier::external_body]
pub struct ExIoError(std::io::Error);

impl From<std::io::Error> for ClusterError {
    /// The error's `Display` report, kept as the detail.
    fn from(error: std::io::Error) -> (r: ClusterError)
        ensures
            exists|t: String|
                #![trigger vstd::string::to_string_from_display_ensures::<std::io::Error>(&error, t)]
                vstd::string::to_string_from_display_ensures::<std::io::Error>(&error, t)
                && (r matches ClusterError::IoError(m) && m@ == t@),
    {
        ClusterError::IoError(error.to_string())
    }
}

impl FromSpecImpl<std::io::Error> for ClusterError {
    open spec fn obeys_from_spec() -> bool {
        false
    }

    open spec fn from_spec(v: std::io::Error) -> ClusterError {
        arbitrary()
    }
}

#[verifier::external_type_specification]
#[verifier::external_body]
pub struct ExJsonError(serde_json::Error);

impl From<serde_json::Error> for ClusterError {
    /// The error's `Display` report, kept as the detail.
    fn from(error: serde_json::Error) -> (r: ClusterError)
        ensures
            exists|t: String|
                #![trigger vstd::string::to_string_from_display_ensures::<serde_json::Error>(&error, t)]
                vstd::string::to_string_from_display_ensures::<serde_json::Error>(&error, t)
                && (r matches ClusterError::SerializationError(m) && m@ == t@),
    {
        ClusterError::SerializationError(error.to_string())
    }
}

impl FromSpecImpl<serde_json::Error> for ClusterError {
    open spec fn obeys_from_spec() -> bool {
        false
    }

    open spec fn from_spec(v: serde_json::Error) -> ClusterError {
        arbitrary()
    }
}

#[verifier::external_type_specification]
#[verifier::external_body]
pub struct ExTomlDeError(toml::de::Error);

impl From<toml::de::Error> for ClusterError {
    /// The error's `Display` report, kept as the detail.
    fn from(error: toml::de::Error) -> (r: ClusterError)
        ensures
            exists|t: String|
                #![trigger vstd::string::to_string_from_display_ensures::<toml::de::Error>(&error, t)]
                vstd::string::to_string_from_display_ensures::<toml::de::Error>(&error, t)
                && (r matches ClusterError::DeserializationError(m) && m@ == t@),
    {
        ClusterError::DeserializationError(error.to_string())
    }
}

impl FromSpecImpl<toml::de::Error> for ClusterError {
    open spec fn obeys_from_spec() -> bool {
        false
    }

    open spec fn from_spec(v: toml::de::Error) -> ClusterError {
        arbitrary()
    }
}

#[verifier::external_type_specification]
#[verifier::external_body]
pub struct ExTomlSerError(toml::ser::Error);

impl From<toml::ser::Error> for ClusterError {
    /// The error's `Display` report, kept as the detail.
    fn from(error: toml::ser::Error) -> (r: ClusterError)
        ensures
            exists|t: String|
                #![trigger vstd::string::to_string_from_display_ensures::<toml::ser::Error>(&error, t)]
                vstd::string::to_string_from_display_ensures::<toml::ser::Error>(&error, t)
                && (r matches ClusterError::SerializationError(m) && m@ == t@),
    {
        ClusterError::SerializationError(error.to_string())
    }
}

impl FromSpecImpl<toml::ser::Error> for ClusterError {
    open spec fn obeys_from_spec() -> bool {
        false
    }

    open spec fn from_spec(v: toml::ser::Error) -> ClusterError {
        arbitrary()
    }
}

#[verifier::external_type_specification]
#[verifier::external_body]
pub struct ExJoinError(tokio::task::JoinError);

impl From<tokio::task::JoinError> for ClusterError {
    /// The error's `Display` report, kept as the detail.
    fn from(error: tokio::task::JoinError) -> (r: ClusterError)
        ensures
            exists|t: String|
                #![trigger vstd::string::to_string_from_display_ensures::<tokio::task::JoinError>(&error, t)]
                vstd::string::to_string_from_display_ensures::<tokio::task::JoinError>(&error, t)
                && (r matches ClusterError::TaskError(m) && m@ == t@),
    {
        ClusterError::TaskError(error.to_string())
    }
}

impl FromSpecImpl<tokio::task::JoinError> for ClusterError {
    open spec fn obeys_from_spec() -> bool {
        false
    }

    open spec fn from_spec(v: tokio::task::JoinError) -> ClusterError {
        arbitrary()
    }
}

#[verifier::external_type_specification]
#[verifier::external_body]
pub struct ExUuidError(uuid::Error);

impl From<uuid::Error> for ClusterError {
    /// `UUID错误: ` followed by the error's `Display` report.
    fn from(error: uuid::Error) -> (r: ClusterError)
        ensures
            exists|t: String|
                #![trigger vstd::string::to_string_from_display_ensures::<uuid::Error>(&error, t)]
                vstd::string::to_string_from_display_ensures::<uuid::Error>(&error, t)
                && (r matches ClusterError::InternalError(m) && m@ == "UUID错误: "@ + t@),
    {
        let t = error.to_string();
        let mut s = String::from_str("UUID错误: ");
        s.append(t.as_str());
        ClusterError::InternalError(s)
    }
}

impl FromSpecImpl<uuid::Error> for ClusterError {
    open spec fn obeys_from_spec() -> bool {
        false
    }

    open spec fn from_spec(v: uuid::Error) -> ClusterError {
        arbitrary()
    }
}

#[verifier::external_type_specification]
#[verifier::external_body]
pub struct ExChronoParseError(chrono::ParseError);

impl From<chrono::ParseError> for ClusterError {
    /// `时间解析错误: ` followed by the error's `Display` report.
    fn from(error: chrono::ParseError) -> (r: ClusterError)
        ensures
            exists|t: String|
                #![trigger vstd::string::to_string_from_display_ensures::<chrono::ParseError>(&error, t)]
                vstd::string::to_string_from_display_ensures::<chrono::ParseError>(&error, t)
                && (r matches ClusterError::DeserializationError(m) && m@ == "时间解析错误: "@ + t@),
    {
        let t = error.to_string();
        let mut s = String::from_str("时间解析错误: ");
        s.append(t.as_str());
        ClusterError::DeserializationError(s)
    }
}

impl FromSpecImpl<chrono::ParseError> for ClusterError {
    open spec fn obeys_from_spec() -> bool {
        false
    }

    open spec fn from_spec(v: chrono::ParseError) -> ClusterError {
        arbitrary()
    }
}


#[verifier::external_type_specification]
#[verifier::external_body]
pub struct ExRequestError(reqwest::Error);

/// `reqwest::Error::is_timeout`: whether the failure was a timeout.
#[verifier::external_body]
fn request_error_is_timeout(e: &reqwest::Error) -> bool {
    e.is_timeout()
}

/// `reqwest::Error::is_connect`: whether the failure was in connecting.
#[verifier::external_body]
fn request_error_is_connect(e: &reqwest::Error) -> bool {
    e.is_connect()
}

/// The error for a failed HTTP request: a timeout error if it timed out, else a
/// connection error if connecting failed, else a network error.
pub fn classify_request_failure(timed_out: bool, connect_failed: bool, text: String) -> (r: ClusterError)
    ensures
        timed_out ==> (r matches ClusterError::TimeoutError(m) && m@ == text@),
        !timed_out && connect_failed ==> (r matches ClusterError::ConnectionError(m) && m@ == text@),
        !timed_out && !connect_failed ==> (r matches ClusterError::NetworkError(m) && m@ == text@),
{
    if timed_out {
        ClusterError::TimeoutError(text)
    } else if connect_failed {
        ClusterError::ConnectionError(text)
    } else {
        ClusterError::NetworkError(text)
    }
}

impl From<reqwest::Error> for ClusterError {
    /// A timeout, connection or network error (see `classify_request_failure`)
    /// whose detail is the error's `Display` report.
    fn from(error: reqwest::Error) -> (r: ClusterError)
        ensures
            exists|t: String|
                #![trigger vstd::string::to_string_from_display_ensures::<reqwest::Error>(&error, t)]
                vstd::string::to_string_from_display_ensures::<reqwest::Error>(&error, t) && ({
                    ||| r matches ClusterError::TimeoutError(m) && m@ == t@
                    ||| r matches ClusterError::ConnectionError(m) && m@ == t@
                    ||| r matches ClusterError::NetworkError(m) && m@ == t@
                }),
    {
        let timed_out = request_error_is_timeout(&error);
        let connect_failed = request_error_is_connect(&error);
        classify_request_failure(timed_out, connect_failed, error.to_string())
    }
}

impl FromSpecImpl<reqwest::Error> for ClusterError {
    open spec fn obeys_from_spec() -> bool {
        false
    }

    open spec fn from_spec(v: reqwest::Error) -> ClusterError {
        arbitrary()
    }
}

// ---------------------------------------------------------------------------
// gRPC statuses.
// ---------------------------------------------------------------------------

/// The status codes of gRPC, numbered as `tonic::Code` numbers them.
#[derive(Debug, Clone, Copy, PartialEq, Eq)]
pub enum GrpcCode {
    /// The operation completed successfully.
    Success,
    /// The operation was cancelled.
    Cancelled,
    /// Unknown error.
    Unknown,
    /// Client specified an invalid argument.
    InvalidArgument,
    /// Deadline expired before operation could complete.
    DeadlineExceeded,
    /// Some requested entity was not found.
    NotFound,
    /// Some entity that we attempted to create already exists.
    AlreadyExists,
    /// The caller does not have permission to execute the specified operation.
    PermissionDenied,
    /// Some resource has been exhausted.
    ResourceExhausted,
    /// The system is not in a state required for the operation's execution.
    FailedPrecondition,
    /// The operation was aborted.
    Aborted,
    /// Operation was attempted past the valid range.
    OutOfRange,
    /// Operation is not implemented or not supported.
    Unimplemented,
    /// Internal error.
    Internal,
    /// The service is currently unavailable.
    Unavailable,
    /// Unrecoverable data loss or corruption.
    DataLoss,
    /// The request does not have valid authentication credentials.
    Unauthenticated,
}

/// The number of a status code.
pub open spec fn grpc_code_number(code: GrpcCode) -> i32 {
    match code {
        GrpcCode::Success => 0,
        GrpcCode::Cancelled => 1,
        GrpcCode::Unknown => 2,
        GrpcCode::InvalidArgument => 3,
        GrpcCode::DeadlineExceeded => 4,
        GrpcCode::NotFound => 5,
        GrpcCode::AlreadyExists => 6,
        GrpcCode::PermissionDenied => 7,
        GrpcCode::ResourceExhausted => 8,
        GrpcCode::FailedPrecondition => 9,
        GrpcCode::Aborted => 10,
        GrpcCode::OutOfRange => 11,
        GrpcCode::Unimplemented => 12,
        GrpcCode::Internal => 13,
        GrpcCode::Unavailable => 14,
        GrpcCode::DataLoss => 15,
        GrpcCode::Unauthenticated => 16,
    }
}

/// The description that `tonic::Code`'s `Display` prints for the code with a number.
pub open spec fn grpc_code_description(n: i32) -> Seq<char> {
    if n == 0 {
        "The operation completed successfully"@
    } else if n == 1 {
        "The operation was cancelled"@
    } else if n == 2 {
        "Unknown error"@
    } else if n == 3 {
        "Client specified an invalid argument"@
    } else if n == 4 {
        "Deadline expired before operation could complete"@
    } else if n == 5 {
        "Some requested entity was not found"@
    } else if n == 6 {
        "Some entity that we attempted to create already exists"@
    } else if n == 7 {
        "The caller does not have permission to execute the specified operation"@
    } else if n == 8 {
        "Some resource has been exhausted"@
    } else if n == 9 {
        "The system is not in a state required for the operation's execution"@
    } else if n == 10 {
        "The operation was aborted"@
    } else if n == 11 {
        "Operation was attempted past the valid range"@
    } else if n == 12 {
        "Operation is not implemented or not supported"@
    } else if n == 13 {
        "Internal error"@
    } else if n == 14 {
        "The service is currently unavailable"@
    } else if n == 15 {
        "Unrecoverable data loss or corruption"@
    } else {
        "The request does not have valid authentication credentials"@
    }
}

/// The number of a status code.
pub fn code_number(code: GrpcCode) -> (r: i32)
    ensures
        r == grpc_code_number(code),
{
    match code {
        GrpcCode::Success => 0,
        GrpcCode::Cancelled => 1,
        GrpcCode::Unknown => 2,
        GrpcCode::InvalidArgument => 3,
        GrpcCode::DeadlineExceeded => 4,
        GrpcCode::NotFound => 5,
        GrpcCode::AlreadyExists => 6,
        GrpcCode::PermissionDenied => 7,
        GrpcCode::ResourceExhausted => 8,
        GrpcCode::FailedPrecondition => 9,
        GrpcCode::Aborted => 10,
        GrpcCode::OutOfRange => 11,
        GrpcCode::Unimplemented => 12,
        GrpcCode::Internal => 13,
        GrpcCode::Unavailable => 14,
        GrpcCode::DataLoss => 15,
        GrpcCode::Unauthenticated => 16,
    }
}

/// The status code with a number, `Unknown` for a number that names none.
pub fn code_from_number(n: i32) -> (r: GrpcCode)
    ensures
        0 <= n <= 16 ==> grpc_code_number(r) == n,
        !(0 <= n <= 16) ==> r == GrpcCode::Unknown,
{
    if n == 0 {
        GrpcCode::Success
    } else if n == 1 {
        GrpcCode::Cancelled
    } else if n == 2 {
        GrpcCode::Unknown
    } else if n == 3 {
        GrpcCode::InvalidArgument
    } else if n == 4 {
        GrpcCode::DeadlineExceeded
    } else if n == 5 {
        GrpcCode::NotFound
    } else if n == 6 {
        GrpcCode::AlreadyExists
    } else if n == 7 {
        GrpcCode::PermissionDenied
    } else if n == 8 {
        GrpcCode::ResourceExhausted
    } else if n == 9 {
        GrpcCode::FailedPrecondition
    } else if n == 10 {
        GrpcCode::Aborted
    } else if n == 11 {
        GrpcCode::OutOfRange
    } else if n == 12 {
        GrpcCode::Unimplemented
    } else if n == 13 {
        GrpcCode::Internal
    } else if n == 14 {
        GrpcCode::Unavailable
    } else if n == 15 {
        GrpcCode::DataLoss
    } else if n == 16 {
        GrpcCode::Unauthenticated
    } else {
        GrpcCode::Unknown
    }
}


#[verifier::external_type_specification]
#[verifier::external_body]
pub struct ExStatus(tonic::Status);

/// The status that `tonic::Status::new` builds from a code number and a message.
pub uninterp spec fn status_of(code: i32, message: Seq<char>) -> tonic::Status;

/// `tonic::Status::new(tonic::Code::from_i32(code), message)`.
#[verifier::external_body]
fn new_status(code: i32, message: String) -> (r: tonic::Status)
    requires
        0 <= code <= 16,
    ensures
        r == status_of(code, message@),
{
    tonic::Status::new(tonic::Code::from_i32(code), message)
}

/// The number of `tonic::Status::code`; a status built by `new_status` has the code
/// it was built with.
#[verifier::external_body]
fn status_code_number(status: &tonic::Status) -> (r: i32)
    ensures
        0 <= r <= 16,
        forall|c: i32, m: Seq<char>| 0 <= c <= 16 && *status == status_of(c, m) ==> r == c,
{
    status.code() as i32
}

/// `tonic::Status::message`; a status built by `new_status` has the message it was
/// built with.
#[verifier::external_body]
fn status_message(status: &tonic::Status) -> (r: String)
    ensures
        forall|c: i32, m: Seq<char>| 0 <= c <= 16 && *status == status_of(c, m) ==> r@ == m,
{
    status.message().to_string()
}

/// What `tonic::Code`'s `Display` prints for the code with a number.
#[verifier::external_body]
fn code_description(n: i32) -> (r: String)
    requires
        0 <= n <= 16,
    ensures
        r@ == grpc_code_description(n),
{
    tonic::Code::from_i32(n).to_string()
}

/// What an error becomes on the gRPC side: the code it is reported with.
pub open spec fn grpc_code_for(e: ClusterError) -> GrpcCode {
    match e {
        ClusterError::AgentNotFound(_) | ClusterError::NodeNotFound(_)
        | ClusterError::ServiceNotFound(_) => GrpcCode::NotFound,
        ClusterError::ConfigError(_) => GrpcCode::InvalidArgument,
        ClusterError::AuthenticationError(_) => GrpcCode::Unauthenticated,
        ClusterError::PermissionError(_) => GrpcCode::PermissionDenied,
        ClusterError::TimeoutError(_) => GrpcCode::DeadlineExceeded,
        ClusterError::ResourceExhaustedError(_) => GrpcCode::ResourceExhausted,
        ClusterError::ConnectionError(_) | ClusterError::NetworkError(_) => GrpcCode::Unavailable,
        ClusterError::UnsupportedBackend(_) => GrpcCode::Unimplemented,
        _ => GrpcCode::Internal,
    }
}

/// What an error becomes on the gRPC side: the message it is reported with; the
/// detail where the kind maps to a code of its own, the full report otherwise.
pub open spec fn grpc_message_for(e: ClusterError) -> Seq<char> {
    if grpc_code_for(e) == GrpcCode::Internal {
        e.text()
    } else {
        e.detail()
    }
}

/// The code and the message with which an error is reported over gRPC.
pub fn grpc_status_parts(e: &ClusterError) -> (r: (GrpcCode, String))
    ensures
        r.0 == grpc_code_for(*e),
        r.1@ == grpc_message_for(*e),
{
    let code = match e {
        ClusterError::AgentNotFound(_) | ClusterError::NodeNotFound(_)
        | ClusterError::ServiceNotFound(_) => GrpcCode::NotFound,
        ClusterError::ConfigError(_) => GrpcCode::InvalidArgument,
        ClusterError::AuthenticationError(_) => GrpcCode::Unauthenticated,
        ClusterError::PermissionError(_) => GrpcCode::PermissionDenied,
        ClusterError::TimeoutError(_) => GrpcCode::DeadlineExceeded,
        ClusterError::ResourceExhaustedError(_) => GrpcCode::ResourceExhausted,
        ClusterError::ConnectionError(_) | ClusterError::NetworkError(_) => GrpcCode::Unavailable,
        ClusterError::UnsupportedBackend(_) => GrpcCode::Unimplemented,
        _ => GrpcCode::Internal,
    };
    match code {
        GrpcCode::Internal => (code, e.to_string()),
        _ => (code, String::from_str(e.detail_str())),
    }
}

/// The error that a gRPC status with code `code` and message `message` becomes.
pub open spec fn error_from_grpc(code: GrpcCode, message: Seq<char>, r: ClusterError) -> bool {
    match code {
        GrpcCode::NotFound => r matches ClusterError::ServiceNotFound(m) && m@ == message,
        GrpcCode::InvalidArgument => r matches ClusterError::ConfigError(m) && m@ == message,
        GrpcCode::Unauthenticated => r matches ClusterError::AuthenticationError(m) && m@ == message,
        GrpcCode::PermissionDenied => r matches ClusterError::PermissionError(m) && m@ == message,
        GrpcCode::DeadlineExceeded => r matches ClusterError::TimeoutError(m) && m@ == message,
        GrpcCode::ResourceExhausted => r matches ClusterError::ResourceExhaustedError(m) && m@ == message,
        GrpcCode::Unavailable => r matches ClusterError::ConnectionError(m) && m@ == message,
        _ => r matches ClusterError::InternalError(m)
            && m@ == grpc_code_description(grpc_code_number(code)) + ": "@ + message,
    }
}

/// The error that a gRPC status with the given code and message becomes.
pub fn error_from_grpc_parts(code: GrpcCode, message: String) -> (r: ClusterError)
    ensures
        error_from_grpc(code, message@, r),
{
    match code {
        GrpcCode::NotFound => ClusterError::ServiceNotFound(message),
        GrpcCode::InvalidArgument => ClusterError::ConfigError(message),
        GrpcCode::Unauthenticated => ClusterError::AuthenticationError(message),
        GrpcCode::PermissionDenied => ClusterError::PermissionError(message),
        GrpcCode::DeadlineExceeded => ClusterError::TimeoutError(message),
        GrpcCode::ResourceExhausted => ClusterError::ResourceExhaustedError(message),
        GrpcCode::Unavailable => ClusterError::ConnectionError(message),
        _ => {
            let mut s = code_description(code_number(code));
            s.append(": ");
            s.append(message.as_str());
            ClusterError::InternalError(s)
        },
    }
}

impl From<tonic::Status> for ClusterError {
    fn from(status: tonic::Status) -> (r: ClusterError)
        ensures
            forall|c: GrpcCode, m: Seq<char>| status == status_of(grpc_code_number(c), m)
                ==> #[trigger] error_from_grpc(c, m, r),
    {
        let n = status_code_number(&status);
        let code = code_from_number(n);
        let message = status_message(&status);
        error_from_grpc_parts(code, message)
    }
}

impl FromSpecImpl<tonic::Status> for ClusterError {
    open spec fn obeys_from_spec() -> bool {
        false
    }

    open spec fn from_spec(v: tonic::Status) -> ClusterError {
        arbitrary()
    }
}

impl From<ClusterError> for tonic::Status {
    fn from(error: ClusterError) -> (r: tonic::Status)
        ensures
            r == status_of(grpc_code_number(grpc_code_for(error)), grpc_message_for(error)),
    {
        let (code, message) = grpc_status_parts(&error);
        new_status(code_number(code), message)
    }
}

impl FromSpecImpl<ClusterError> for tonic::Status {
    open spec fn obeys_from_spec() -> bool {
        true
    }

    open spec fn from_spec(v: ClusterError) -> tonic::Status {
        status_of(grpc_code_number(grpc_code_for(v)), grpc_message_for(v))
    }
}

/// Reporting an error over gRPC and reading the status back gives an error of
/// the same kind with the same detail, for each kind that has a gRPC code of its
/// own and that a status with that code turns back into.
pub proof fn lemma_grpc_round_trip(e: ClusterError, back: ClusterError)
    requires
        e is ConfigError || e is AuthenticationError || e is PermissionError
            || e is TimeoutError || e is ResourceExhaustedError || e is ServiceNotFound
            || e is ConnectionError,
        error_from_grpc(grpc_code_for(e), grpc_message_for(e), back),
    ensures
        back.heading() == e.heading(),
        back.detail() == e.detail(),
{
}

} // verus!
