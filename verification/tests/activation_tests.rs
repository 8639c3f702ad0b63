use tts_studio::activation::{activation_verdict, ActivationError};

#[test]
fn valid_answer_is_accepted() {
    assert!(activation_verdict(Some(true), Some("激活成功")).is_ok());
}

#[test]
fn refusal_carries_server_message_or_default() {
    match activation_verdict(Some(false), Some("授权码已过期")) {
        Err(ActivationError::Rejected(m)) => assert_eq!(m, "授权码已过期"),
        other => panic!("unexpected {:?}", other),
    }
    match activation_verdict(None, None) {
        Err(e) => assert_eq!(e.message(), "授权码无效"),
        other => panic!("unexpected {:?}", other),
    }
}

#[test]
fn error_messages_have_their_prefixes() {
    assert_eq!(ActivationError::Unreachable("timeout".to_string()).message(), "无法连接授权服务器: timeout");
    assert_eq!(ActivationError::BadResponse("eof".to_string()).message(), "授权服务器响应异常: eof");
    assert_eq!(ActivationError::SaveFailed("denied".to_string()).message(), "保存授权信息失败: denied");
}
