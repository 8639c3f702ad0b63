use tts_studio::server::{
    activation_precheck, admin_precheck, check_auth, expiry_after_days, finish_activation, plan_activation,
    plan_add, require_code, require_existing, verify_lookup, verify_record, ActivationStep, ApiError,
    LicenseRecord, LicenseReply, NewLicense, Refusal, DAY_MS,
};

fn record(machine: Option<&str>, count: i32, max: i32, expires: Option<i64>) -> LicenseRecord {
    LicenseRecord {
        code: "CODE-1".to_string(),
        max_activations: max,
        activation_count: count,
        machine_id: machine.map(|m| m.to_string()),
        activated_at: None,
        expires_at: expires,
    }
}

#[test]
fn auth_needs_configured_password() {
    assert_eq!(check_auth("", Some("Bearer ")), Err(ApiError::PasswordNotConfigured));
    assert_eq!(ApiError::PasswordNotConfigured.status(), 500);
    assert_eq!(ApiError::PasswordNotConfigured.message(), "ADMIN_PASSWORD 未配置");
}

#[test]
fn auth_accepts_bearer_password_only() {
    assert_eq!(check_auth("s3cret", Some("Bearer s3cret")), Ok(()));
    assert_eq!(check_auth("s3cret", Some("Bearer wrong")), Err(ApiError::WrongPassword));
    assert_eq!(check_auth("s3cret", Some("s3cret")), Err(ApiError::WrongPassword));
    assert_eq!(check_auth("s3cret", None), Err(ApiError::WrongPassword));
    assert_eq!(ApiError::WrongPassword.status(), 401);
    assert_eq!(ApiError::WrongPassword.message(), "密码错误");
}

#[test]
fn admin_precheck_orders_auth_before_code() {
    assert_eq!(admin_precheck("pw", None, ""), Err(ApiError::WrongPassword));
    assert_eq!(admin_precheck("pw", Some("Bearer pw"), ""), Err(ApiError::MissingCode));
    assert_eq!(admin_precheck("pw", Some("Bearer pw"), "K"), Ok(()));
    assert_eq!(require_code(""), Err(ApiError::MissingCode));
    assert_eq!(ApiError::MissingCode.status(), 400);
    assert_eq!(ApiError::MissingCode.message(), "缺少授权码");
}

#[test]
fn add_defaults_and_expiry() {
    assert_eq!(plan_add(true, None, None, 0), Err(ApiError::CodeExists));
    assert_eq!(ApiError::CodeExists.message(), "授权码已存在");
    assert_eq!(plan_add(false, None, None, 5), Ok(NewLicense { max_activations: 1, expires_at: None }));
    assert_eq!(plan_add(false, Some(0), Some(0), 5), Ok(NewLicense { max_activations: 1, expires_at: None }));
    assert_eq!(plan_add(false, Some(-3), Some(-2), 5), Ok(NewLicense { max_activations: 1, expires_at: None }));
    assert_eq!(
        plan_add(false, Some(3), Some(2), 1_000),
        Ok(NewLicense { max_activations: 3, expires_at: Some(1_000 + 2 * 86_400_000) })
    );
    assert_eq!(DAY_MS, 86_400_000);
}

#[test]
fn remove_and_expire_need_existing_key() {
    assert_eq!(require_existing(false), Err(ApiError::UnknownCode));
    assert_eq!(ApiError::UnknownCode.status(), 404);
    assert_eq!(ApiError::UnknownCode.message(), "授权码不存在");
    assert_eq!(require_existing(true), Ok(()));
    assert_eq!(expiry_after_days(0, 123), None);
    assert_eq!(expiry_after_days(30, 100), Some(100 + 30 * 86_400_000));
}

#[test]
fn verify_refuses_expired_then_other_machine() {
    let r = record(Some("m1"), 1, 1, Some(1_000));
    assert_eq!(verify_record(&r, Some("m1"), 1_001), LicenseReply::Refused(Refusal::Expired));
    assert_eq!(verify_record(&r, Some("m2"), 1_001), LicenseReply::Refused(Refusal::Expired));
    assert_eq!(verify_record(&r, Some("m2"), 1_000), LicenseReply::Refused(Refusal::BoundToOtherMachine));
    assert_eq!(verify_record(&r, Some("m1"), 1_000), LicenseReply::Valid { expires_at: Some(1_000) });
    assert_eq!(verify_record(&r, None, 10), LicenseReply::Valid { expires_at: Some(1_000) });
    assert_eq!(verify_lookup(None, Some("m1"), 10), LicenseReply::Refused(Refusal::UnknownKey));
    assert_eq!(verify_lookup(Some(&r), Some("m1"), 10), LicenseReply::Valid { expires_at: Some(1_000) });
}

#[test]
fn reply_messages() {
    assert_eq!(LicenseReply::Valid { expires_at: None }.message(), "授权码有效");
    assert!(LicenseReply::Valid { expires_at: None }.is_valid());
    assert_eq!(LicenseReply::Activated { expires_at: Some(9) }.message(), "激活成功");
    assert_eq!(LicenseReply::Activated { expires_at: Some(9) }.expires_at(), Some(9));
    assert_eq!(LicenseReply::Refused(Refusal::UnknownKey).message(), "授权码无效");
    assert_eq!(LicenseReply::Refused(Refusal::Expired).message(), "授权码已过期");
    assert_eq!(LicenseReply::Refused(Refusal::BoundToOtherMachine).message(), "授权码已被其他设备绑定");
    assert_eq!(LicenseReply::Refused(Refusal::NoActivationsLeft).message(), "授权码激活次数已用完");
    assert_eq!(LicenseReply::Refused(Refusal::ActivationFailed).message(), "授权码激活失败");
    assert!(!LicenseReply::Refused(Refusal::Expired).is_valid());
    assert_eq!(LicenseReply::Refused(Refusal::Expired).expires_at(), None);
}

#[test]
fn activation_prechecks() {
    assert_eq!(activation_precheck("", Some("m")), Err(ApiError::MissingCode));
    assert_eq!(activation_precheck("K", None), Err(ApiError::MissingMachineId));
    assert_eq!(activation_precheck("K", Some("")), Err(ApiError::MissingMachineId));
    assert_eq!(ApiError::MissingMachineId.message(), "缺少机器标识");
    assert_eq!(activation_precheck("K", Some("m")), Ok(()));
}

#[test]
fn activation_steps() {
    assert_eq!(plan_activation(None, "m", 0), ActivationStep::Reply(LicenseReply::Refused(Refusal::UnknownKey)));
    let expired = record(None, 0, 1, Some(5));
    assert_eq!(plan_activation(Some(&expired), "m", 6), ActivationStep::Reply(LicenseReply::Refused(Refusal::Expired)));
    let bound = record(Some("m"), 1, 1, None);
    assert_eq!(plan_activation(Some(&bound), "m", 6), ActivationStep::Reply(LicenseReply::Activated { expires_at: None }));
    assert_eq!(
        plan_activation(Some(&bound), "other", 6),
        ActivationStep::Reply(LicenseReply::Refused(Refusal::BoundToOtherMachine))
    );
    let used = record(None, 2, 2, None);
    assert_eq!(plan_activation(Some(&used), "m", 6), ActivationStep::Reply(LicenseReply::Refused(Refusal::NoActivationsLeft)));
    let fresh = record(None, 0, 1, Some(100));
    assert_eq!(plan_activation(Some(&fresh), "m", 6), ActivationStep::Bind);
    assert_eq!(finish_activation(&fresh, 1), LicenseReply::Activated { expires_at: Some(100) });
    assert_eq!(finish_activation(&fresh, 0), LicenseReply::Refused(Refusal::ActivationFailed));
}

#[test]
fn activated_key_verifies_only_on_its_machine() {
    let before = record(None, 0, 1, Some(1_000));
    assert_eq!(plan_activation(Some(&before), "m1", 10), ActivationStep::Bind);
    let after = LicenseRecord {
        code: before.code.clone(),
        max_activations: 1,
        activation_count: 1,
        machine_id: Some("m1".to_string()),
        activated_at: Some(10),
        expires_at: Some(1_000),
    };
    assert_eq!(verify_record(&after, Some("m1"), 500), LicenseReply::Valid { expires_at: Some(1_000) });
    assert_eq!(verify_record(&after, Some("m2"), 500), LicenseReply::Refused(Refusal::BoundToOtherMachine));
    assert_eq!(plan_activation(Some(&after), "m1", 500), ActivationStep::Reply(LicenseReply::Activated { expires_at: Some(1_000) }));
    assert_eq!(
        plan_activation(Some(&after), "m2", 500),
        ActivationStep::Reply(LicenseReply::Refused(Refusal::BoundToOtherMachine))
    );
    assert_eq!(verify_record(&after, Some("m1"), 2_000), LicenseReply::Refused(Refusal::Expired));
}

#[test]
fn internal_error_is_500() {
    assert_eq!(ApiError::Internal.status(), 500);
    assert_eq!(ApiError::Internal.message(), "服务器内部错误");
}

#[test]
fn exhausted_key_is_not_bound_again() {
    let at_limit = record(None, 3, 3, None);
    assert_eq!(
        plan_activation(Some(&at_limit), "m", 0),
        ActivationStep::Reply(LicenseReply::Refused(Refusal::NoActivationsLeft))
    );
    let below = record(None, 2, 3, None);
    assert_eq!(plan_activation(Some(&below), "m", 0), ActivationStep::Bind);
}

#[test]
fn expired_key_stays_expired() {
    let r = record(None, 0, 1, Some(50));
    for t in [51, 1_000, i64::MAX] {
        assert_eq!(verify_record(&r, None, t), LicenseReply::Refused(Refusal::Expired));
    }
    assert_eq!(verify_record(&r, None, 50), LicenseReply::Valid { expires_at: Some(50) });
}
