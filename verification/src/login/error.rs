//! The failures of the login protocol and the messages shown for them.

use vstd::prelude::*;
use vstd::string::*;

verus! {

/// Why a card whose status is not `"used"` is refused.
#[derive(Debug, Clone, Copy, PartialEq, Eq, Structural)]
pub enum StatusFault {
    /// The card was never activated.
    Unused,
    /// The server has marked the card as expired.
    Expired,
    /// The status is none of the known ones.
    Unknown,
}

/// The step of the transport at which a verification call broke down.
#[derive(Debug, Clone, Copy, PartialEq, Eq, Structural)]
pub enum TransportStage {
    /// The HTTP client could not be built.
    ClientSetup,
    /// The request could not be sent or answered.
    Request,
    /// The body of the answer could not be read.
    ResponseBody,
}

/// A failure of the transport, as the caller of the network observed it.
#[derive(Debug, Clone, PartialEq, Eq)]
pub struct TransportFailure {
    pub stage: TransportStage,
    pub detail: String,
}

/// The mathematical content of a [`TransportFailure`].
pub struct TransportFault {
    pub stage: TransportStage,
    pub detail: Seq<char>,
}

impl View for TransportFailure {
    type V = TransportFault;

    open spec fn view(&self) -> TransportFault {
        TransportFault { stage: self.stage, detail: self.detail@ }
    }
}

/// Every way in which a login can fail.
#[derive(Debug, Clone, PartialEq, Eq)]
pub enum LoginError {
    /// The activation key is the empty string.
    EmptyCredential,
    /// No hardware fingerprint could be derived for this machine.
    HardwareIdUnavailable,
    /// The verification call never produced a response body.
    NetworkError(TransportFailure),
    /// The response body is not the record the protocol expects.
    ResponseMalformed,
    /// The server refused the key, with the message to show.
    Rejected(String),
    /// The server granted the key but sent no card.
    MissingCardInfo,
    /// The card is not in use.
    InvalidStatus(StatusFault),
    /// The card carries no expiry.
    MissingExpiry,
    /// The card's expiry is not an RFC 3339 timestamp.
    ExpiryUnparseable,
    /// The expiry is not in the future.
    AlreadyExpired,
}

/// The mathematical content of a [`LoginError`].
pub enum LoginFault {
    EmptyCredential,
    HardwareIdUnavailable,
    NetworkError(TransportFault),
    ResponseMalformed,
    Rejected(Seq<char>),
    MissingCardInfo,
    InvalidStatus(StatusFault),
    MissingExpiry,
    ExpiryUnparseable,
    AlreadyExpired,
}

impl View for LoginError {
    type V = LoginFault;

    open spec fn view(&self) -> LoginFault {
        match self {
            LoginError::EmptyCredential => LoginFault::EmptyCredential,
            LoginError::HardwareIdUnavailable => LoginFault::HardwareIdUnavailable,
            LoginError::NetworkError(failure) => LoginFault::NetworkError(failure@),
            LoginError::ResponseMalformed => LoginFault::ResponseMalformed,
            LoginError::Rejected(message) => LoginFault::Rejected(message@),
            LoginError::MissingCardInfo => LoginFault::MissingCardInfo,
            LoginError::InvalidStatus(fault) => LoginFault::InvalidStatus(*fault),
            LoginError::MissingExpiry => LoginFault::MissingExpiry,
            LoginError::ExpiryUnparseable => LoginFault::ExpiryUnparseable,
            LoginError::AlreadyExpired => LoginFault::AlreadyExpired,
        }
    }
}

/// The outcome of a login: the grant flag with the expiry, or the failure.
pub type LoginResult = Result<(bool, i64), LoginError>;

/// The mathematical content of a [`LoginResult`].
pub open spec fn outcome_view(result: LoginResult) -> Result<(bool, i64), LoginFault> {
    match result {
        Ok(grant) => Ok(grant),
        Err(error) => Err(error@),
    }
}

/// The words that precede the detail of a transport failure.
pub open spec fn stage_prefix(stage: TransportStage) -> Seq<char> {
    match stage {
        TransportStage::ClientSetup => "创建HTTP客户端失败: "@,
        TransportStage::Request => "网络请求失败: "@,
        TransportStage::ResponseBody => "读取响应失败: "@,
    }
}

/// The message for a card that is not in use.
pub open spec fn status_message(fault: StatusFault) -> Seq<char> {
    match fault {
        StatusFault::Unused => "卡密未使用"@,
        StatusFault::Expired => "卡密已过期"@,
        StatusFault::Unknown => "卡密状态无效"@,
    }
}

/// The user-facing message of each failure.
pub open spec fn message_of(fault: LoginFault) -> Seq<char> {
    match fault {
        LoginFault::EmptyCredential => "卡密不能为空"@,
        LoginFault::HardwareIdUnavailable => "无法获取硬件ID"@,
        LoginFault::NetworkError(failure) => stage_prefix(failure.stage) + failure.detail,
        LoginFault::ResponseMalformed => "响应解析失败"@,
        LoginFault::Rejected(message) => message,
        LoginFault::MissingCardInfo => "服务器未返回卡密信息"@,
        LoginFault::InvalidStatus(fault) => status_message(fault),
        LoginFault::MissingExpiry => "服务器未返回过期时间"@,
        LoginFault::ExpiryUnparseable => "解析过期时间失败"@,
        LoginFault::AlreadyExpired => "会话已过期，请重新登录"@,
    }
}

impl TransportStage {
    /// The words that precede the detail of a failure at this stage.
    pub fn prefix(self) -> (text: &'static str)
        ensures
            text@ == stage_prefix(self),
    {
        match self {
            TransportStage::ClientSetup => "创建HTTP客户端失败: ",
            TransportStage::Request => "网络请求失败: ",
            TransportStage::ResponseBody => "读取响应失败: ",
        }
    }
}

impl StatusFault {
    /// The message shown for a card in this state.
    pub fn message(self) -> (text: &'static str)
        ensures
            text@ == status_message(self),
    {
        match self {
            StatusFault::Unused => "卡密未使用",
            StatusFault::Expired => "卡密已过期",
            StatusFault::Unknown => "卡密状态无效",
        }
    }
}

impl LoginError {
    /// The message shown to the user for this failure.
    pub fn message(&self) -> (text: String)
        ensures
            text@ == message_of(self@),
    {
        match self {
            LoginError::EmptyCredential => String::from_str("卡密不能为空"),
            LoginError::HardwareIdUnavailable => String::from_str("无法获取硬件ID"),
            LoginError::NetworkError(failure) => {
                let head = String::from_str(failure.stage.prefix());
                head.concat(failure.detail.as_str())
            },
            LoginError::ResponseMalformed => String::from_str("响应解析失败"),
            LoginError::Rejected(message) => message.clone(),
            LoginError::MissingCardInfo => String::from_str("服务器未返回卡密信息"),
            LoginError::InvalidStatus(fault) => String::from_str(fault.message()),
            LoginError::MissingExpiry => String::from_str("服务器未返回过期时间"),
            LoginError::ExpiryUnparseable => String::from_str("解析过期时间失败"),
            LoginError::AlreadyExpired => String::from_str("会话已过期，请重新登录"),
        }
    }
}

} // verus!
