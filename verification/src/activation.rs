//! The desktop side of activating a license key: what the license server's
//! answer comes to, and the messages the user is shown when it fails.
use vstd::prelude::*;

use crate::text::concat2;

verus! {

/// Why activating a license key failed.
#[derive(Debug)]
pub enum ActivationError {
    /// The license server could not be reached; the detail says why.
    Unreachable(String),
    /// The license server's answer could not be read; the detail says why.
    BadResponse(String),
    /// The key could not be saved; the detail says why.
    SaveFailed(String),
    /// The license server refused the key with this message.
    Rejected(String),
}

/// The message shown for the failure `e`.
pub open spec fn error_message(e: ActivationError) -> Seq<char> {
    match e {
        ActivationError::Unreachable(d) => "无法连接授权服务器: "@ + d@,
        ActivationError::BadResponse(d) => "授权服务器响应异常: "@ + d@,
        ActivationError::SaveFailed(d) => "保存授权信息失败: "@ + d@,
        ActivationError::Rejected(m) => m@,
    }
}

impl ActivationError {
    /// The message shown to the user.
    pub fn message(&self) -> (m: String)
        ensures
            m@ == error_message(*self),
    {
        match self {
            ActivationError::Unreachable(d) => concat2("无法连接授权服务器: ", d.as_str()),
            ActivationError::BadResponse(d) => concat2("授权服务器响应异常: ", d.as_str()),
            ActivationError::SaveFailed(d) => concat2("保存授权信息失败: ", d.as_str()),
            ActivationError::Rejected(m) => m.clone(),
        }
    }
}

/// What the license server's answer comes to. `valid` is its `valid` field
/// and `message` its `message` field, each when present with the expected
/// type. The key is accepted only when `valid` is true; otherwise the
/// server's message is given, or "授权码无效" when it sent none.
pub fn activation_verdict(valid: Option<bool>, message: Option<&str>) -> (r: Result<(), ActivationError>)
    ensures
        valid == Some(true) ==> r is Ok,
        valid != Some(true) ==> (r matches Err(ActivationError::Rejected(m)) && m@ == (match message {
            Some(s) => s@,
            None => "授权码无效"@,
        })),
{
    proof {
        reveal_strlit("授权码无效");
    }
    match valid {
        Some(true) => Ok(()),
        _ => {
            let m = match message {
                Some(s) => s.to_owned(),
                None => "授权码无效".to_owned(),
            };
            Err(ActivationError::Rejected(m))
        },
    }
}

} // verus!
