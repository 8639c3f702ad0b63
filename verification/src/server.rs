//! The license server's rules: who may administer license keys, what a new
//! key is given, and how a key is verified and activated for a machine.
use vstd::prelude::*;

use crate::text::{has_prefix, str_eq, strip_prefix};

verus! {

/// Milliseconds in a day.
pub const DAY_MS: i64 = 86_400_000;

/// A request the server refuses, with the HTTP status it answers.
#[derive(Debug, Clone, Copy, PartialEq, Eq, Structural)]
pub enum ApiError {
    /// The administrator password is not configured (500).
    PasswordNotConfigured,
    /// The bearer token is not the administrator password (401).
    WrongPassword,
    /// The request names no license key (400).
    MissingCode,
    /// The request names no machine (400).
    MissingMachineId,
    /// The key to add is already there (400).
    CodeExists,
    /// The key named is not there (404).
    UnknownCode,
    /// The database failed (500).
    Internal,
}

/// Why a license key is not accepted.
#[derive(Debug, Clone, Copy, PartialEq, Eq, Structural)]
pub enum Refusal {
    /// No such key.
    UnknownKey,
    /// The key has expired.
    Expired,
    /// The key is bound to another machine.
    BoundToOtherMachine,
    /// The key has been activated as often as it may be.
    NoActivationsLeft,
    /// The key could not be bound to the machine.
    ActivationFailed,
}

/// The answer to a request to verify or activate a key.
#[derive(Debug, Clone, Copy, PartialEq, Eq, Structural)]
pub enum LicenseReply {
    /// The key is valid; it expires at `expires_at`, if ever.
    Valid { expires_at: Option<i64> },
    /// The key is activated for the machine; it expires at `expires_at`, if ever.
    Activated { expires_at: Option<i64> },
    /// The key is not accepted.
    Refused(Refusal),
}

/// What to do with a request to activate a key.
#[derive(Debug, Clone, Copy, PartialEq, Eq, Structural)]
pub enum ActivationStep {
    /// Answer at once.
    Reply(LicenseReply),
    /// Bind the key to the machine, then answer by `finish_activation`.
    Bind,
}

/// A license key as the server keeps it.
#[derive(Debug)]
pub struct LicenseRecord {
    pub code: String,
    pub max_activations: i32,
    pub activation_count: i32,
    pub machine_id: Option<String>,
    pub activated_at: Option<i64>,
    pub expires_at: Option<i64>,
}

/// What a new key is given.
#[derive(Debug, Clone, Copy, PartialEq, Eq, Structural)]
pub struct NewLicense {
    pub max_activations: i32,
    pub expires_at: Option<i64>,
}

impl ApiError {
    /// The HTTP status of the answer.
    pub fn status(&self) -> (s: u16)
        ensures
            s == match *self {
                ApiError::PasswordNotConfigured => 500u16,
                ApiError::WrongPassword => 401u16,
                ApiError::MissingCode => 400u16,
                ApiError::MissingMachineId => 400u16,
                ApiError::CodeExists => 400u16,
                ApiError::UnknownCode => 404u16,
                ApiError::Internal => 500u16,
            },
    {
        match self {
            ApiError::PasswordNotConfigured => 500,
            ApiError::WrongPassword => 401,
            ApiError::MissingCode => 400,
            ApiError::MissingMachineId => 400,
            ApiError::CodeExists => 400,
            ApiError::UnknownCode => 404,
            ApiError::Internal => 500,
        }
    }

    /// The text of the answer.
    pub fn message(&self) -> (m: &'static str)
        ensures
            m@ == match *self {
                ApiError::PasswordNotConfigured => "ADMIN_PASSWORD 未配置"@,
                ApiError::WrongPassword => "密码错误"@,
                ApiError::MissingCode => "缺少授权码"@,
                ApiError::MissingMachineId => "缺少机器标识"@,
                ApiError::CodeExists => "授权码已存在"@,
                ApiError::UnknownCode => "授权码不存在"@,
                ApiError::Internal => "服务器内部错误"@,
            },
    {
        match self {
            ApiError::PasswordNotConfigured => "ADMIN_PASSWORD 未配置",
            ApiError::WrongPassword => "密码错误",
            ApiError::MissingCode => "缺少授权码",
            ApiError::MissingMachineId => "缺少机器标识",
            ApiError::CodeExists => "授权码已存在",
            ApiError::UnknownCode => "授权码不存在",
            ApiError::Internal => "服务器内部错误",
        }
    }
}

impl LicenseReply {
    /// Whether the key is accepted.
    pub fn is_valid(&self) -> (b: bool)
        ensures
            b == !(*self is Refused),
    {
        match self {
            LicenseReply::Refused(_) => false,
            _ => true,
        }
    }

    /// The text of the answer.
    pub fn message(&self) -> (m: &'static str)
        ensures
            m@ == match *self {
                LicenseReply::Valid { .. } => "授权码有效"@,
                LicenseReply::Activated { .. } => "激活成功"@,
                LicenseReply::Refused(Refusal::UnknownKey) => "授权码无效"@,
                LicenseReply::Refused(Refusal::Expired) => "授权码已过期"@,
                LicenseReply::Refused(Refusal::BoundToOtherMachine) => "授权码已被其他设备绑定"@,
                LicenseReply::Refused(Refusal::NoActivationsLeft) => "授权码激活次数已用完"@,
                LicenseReply::Refused(Refusal::ActivationFailed) => "授权码激活失败"@,
            },
    {
        match self {
            LicenseReply::Valid { .. } => "授权码有效",
            LicenseReply::Activated { .. } => "激活成功",
            LicenseReply::Refused(Refusal::UnknownKey) => "授权码无效",
            LicenseReply::Refused(Refusal::Expired) => "授权码已过期",
            LicenseReply::Refused(Refusal::BoundToOtherMachine) => "授权码已被其他设备绑定",
            LicenseReply::Refused(Refusal::NoActivationsLeft) => "授权码激活次数已用完",
            LicenseReply::Refused(Refusal::ActivationFailed) => "授权码激活失败",
        }
    }

    /// When an accepted key expires, if ever; `None` for a refusal too.
    pub fn expires_at(&self) -> (e: Option<i64>)
        ensures
            e == match *self {
                LicenseReply::Valid { expires_at } => expires_at,
                LicenseReply::Activated { expires_at } => expires_at,
                LicenseReply::Refused(_) => None,
            },
    {
        match self {
            LicenseReply::Valid { expires_at } => *expires_at,
            LicenseReply::Activated { expires_at } => *expires_at,
            LicenseReply::Refused(_) => None,
        }
    }
}

/// The characters of an optional string.
pub open spec fn opt_chars(o: Option<&str>) -> Option<Seq<char>> {
    match o {
        Some(s) => Some(s@),
        None => None,
    }
}

/// The bearer token of an `Authorization` header; empty when there is no
/// header or it is not of the form `Bearer <token>`.
pub open spec fn bearer_token(authorization: Option<Seq<char>>) -> Seq<char> {
    match authorization {
        Some(h) => if has_prefix(h, "Bearer "@) {
            h.skip(7)
        } else {
            Seq::empty()
        },
        None => Seq::empty(),
    }
}

/// Whether a request with the header `authorization` may administer keys
/// when the administrator password is `password`.
pub open spec fn auth_outcome(password: Seq<char>, authorization: Option<Seq<char>>) -> Result<
    (),
    ApiError,
> {
    if password.len() == 0 {
        Err(ApiError::PasswordNotConfigured)
    } else if bearer_token(authorization) != password {
        Err(ApiError::WrongPassword)
    } else {
        Ok(())
    }
}

/// Checks that a request may administer keys: a password is configured and
/// the request's `Authorization` header carries it as a bearer token.
pub fn check_auth(password: &str, authorization: Option<&str>) -> (r: Result<(), ApiError>)
    ensures
        r == auth_outcome(password@, opt_chars(authorization)),
{
    proof {
        reveal_strlit("Bearer ");
    }
    if password.unicode_len() == 0 {
        return Err(ApiError::PasswordNotConfigured);
    }
    let token: &str = match authorization {
        Some(h) => match strip_prefix(h, "Bearer ") {
            Some(t) => t,
            None => "",
        },
        None => "",
    };
    proof {
        reveal_strlit("");
    }
    if !str_eq(token, password) {
        return Err(ApiError::WrongPassword);
    }
    Ok(())
}

/// Checks that a request names a license key.
pub fn require_code(code: &str) -> (r: Result<(), ApiError>)
    ensures
        code@.len() == 0 ==> r == Err::<(), ApiError>(ApiError::MissingCode),
        code@.len() > 0 ==> r is Ok,
{
    if code.unicode_len() == 0 {
        Err(ApiError::MissingCode)
    } else {
        Ok(())
    }
}

/// Checks an administrator's request about the key `code`: first the
/// password, then that a key is named.
pub fn admin_precheck(password: &str, authorization: Option<&str>, code: &str) -> (r: Result<
    (),
    ApiError,
>)
    ensures
        auth_outcome(password@, opt_chars(authorization)) is Err ==> r == auth_outcome(
            password@,
            opt_chars(authorization),
        ),
        auth_outcome(password@, opt_chars(authorization)) is Ok && code@.len() == 0 ==> r == Err::<
            (),
            ApiError,
        >(ApiError::MissingCode),
        auth_outcome(password@, opt_chars(authorization)) is Ok && code@.len() > 0 ==> r is Ok,
{
    check_auth(password, authorization)?;
    require_code(code)
}

/// Checks that a key named in a request is there.
pub fn require_existing(exists: bool) -> (r: Result<(), ApiError>)
    ensures
        exists ==> r is Ok,
        !exists ==> r == Err::<(), ApiError>(ApiError::UnknownCode),
{
    if exists {
        Ok(())
    } else {
        Err(ApiError::UnknownCode)
    }
}

/// The expiry `days` days after `now`: none for a non-positive count.
pub open spec fn expiry_after(days: int, now: i64) -> Option<i64> {
    if days > 0 {
        Some((now + days * DAY_MS) as i64)
    } else {
        None
    }
}

/// The span of `days` days, and the time that span after `now`, stay within `i64`.
pub open spec fn span_fits(days: int, now: i64) -> bool {
    i64::MIN <= days * DAY_MS <= i64::MAX && i64::MIN <= now + days * DAY_MS <= i64::MAX
}

/// The expiry `days` days after `now`, when there is one, stays within `i64`.
pub open spec fn expiry_fits(days: int, now: i64) -> bool {
    days > 0 ==> span_fits(days, now)
}

/// What a new key is given when the request asks for `max_activations`
/// activations and an expiry `expires_in_days` days from `now`.
pub open spec fn new_license(max_activations: Option<i32>, expires_in_days: Option<i64>, now: i64) -> NewLicense {
    NewLicense {
        max_activations: match max_activations {
            Some(m) => if m >= 1 {
                m
            } else {
                1
            },
            None => 1,
        },
        expires_at: match expires_in_days {
            Some(d) => expiry_after(d as int, now),
            None => None,
        },
    }
}

/// What a new key is given: at least one activation (one when the request
/// asks for none), and the expiry `expires_in_days` days from `now` when
/// that count is positive. Refused when the key is already there.
pub fn plan_add(exists: bool, max_activations: Option<i32>, expires_in_days: Option<i64>, now: i64) -> (r:
    Result<NewLicense, ApiError>)
    requires
        !exists && expires_in_days is Some ==> expiry_fits(expires_in_days->0 as int, now),
    ensures
        exists ==> r == Err::<NewLicense, ApiError>(ApiError::CodeExists),
        !exists ==> r == Ok::<NewLicense, ApiError>(new_license(max_activations, expires_in_days, now)),
{
    if exists {
        return Err(ApiError::CodeExists);
    }
    let requested: i32 = match max_activations {
        Some(m) => m,
        None => 1,
    };
    let max: i32 = if requested >= 1 {
        requested
    } else {
        1
    };
    let expires_at: Option<i64> = match expires_in_days {
        Some(d) => if d > 0 {
            Some(now + d * DAY_MS)
        } else {
            None
        },
        None => None,
    };
    Ok(NewLicense { max_activations: max, expires_at })
}

/// The expiry set by a request to expire a key after `days` days: the
/// count is read as a signed number, as the database stores it.
pub fn expiry_after_days(days: u64, now: i64) -> (r: Option<i64>)
    requires
        days > 0 ==> span_fits((days as i64) as int, now),
    ensures
        days == 0 ==> r is None,
        days > 0 ==> r == Some((now + (days as i64) * DAY_MS) as i64),
{
    if days > 0 {
        let d: i64 = #[verifier::truncate] (days as i64);
        Some(now + d * DAY_MS)
    } else {
        None
    }
}

/// The key `r` has expired at `now`.
pub open spec fn expired_at(r: LicenseRecord, now: i64) -> bool {
    r.expires_at matches Some(exp) && now > exp
}

/// The key `r` is bound to a machine other than `machine`.
pub open spec fn bound_elsewhere(r: LicenseRecord, machine: Seq<char>) -> bool {
    r.machine_id matches Some(m) && m@ != machine
}

/// The answer to verifying the key `r` at `now` for `machine`, when named.
pub open spec fn verify_reply(r: LicenseRecord, machine: Option<Seq<char>>, now: i64) -> LicenseReply {
    if expired_at(r, now) {
        LicenseReply::Refused(Refusal::Expired)
    } else if machine matches Some(m) && bound_elsewhere(r, m) {
        LicenseReply::Refused(Refusal::BoundToOtherMachine)
    } else {
        LicenseReply::Valid { expires_at: r.expires_at }
    }
}

fn is_expired(record: &LicenseRecord, now: i64) -> (b: bool)
    ensures
        b == expired_at(*record, now),
{
    match record.expires_at {
        Some(exp) => now > exp,
        None => false,
    }
}

fn is_bound_elsewhere(record: &LicenseRecord, machine: &str) -> (b: bool)
    ensures
        b == bound_elsewhere(*record, machine@),
{
    match &record.machine_id {
        Some(m) => !str_eq(m.as_str(), machine),
        None => false,
    }
}

/// Verifies the key `record` at `now` for `machine_id`, when the request
/// names one: expired keys are refused, then keys bound to another machine.
pub fn verify_record(record: &LicenseRecord, machine_id: Option<&str>, now: i64) -> (r: LicenseReply)
    ensures
        r == verify_reply(*record, opt_chars(machine_id), now),
{
    if is_expired(record, now) {
        return LicenseReply::Refused(Refusal::Expired);
    }
    match machine_id {
        Some(m) => if is_bound_elsewhere(record, m) {
            return LicenseReply::Refused(Refusal::BoundToOtherMachine);
        },
        None => {},
    }
    LicenseReply::Valid { expires_at: record.expires_at }
}

/// The answer to verifying a key that was looked up as `record`.
pub fn verify_lookup(record: Option<&LicenseRecord>, machine_id: Option<&str>, now: i64) -> (r:
    LicenseReply)
    ensures
        record is None ==> r == LicenseReply::Refused(Refusal::UnknownKey),
        record matches Some(rec) ==> r == verify_reply(*rec, opt_chars(machine_id), now),
{
    match record {
        Some(rec) => verify_record(rec, machine_id, now),
        None => LicenseReply::Refused(Refusal::UnknownKey),
    }
}

/// Checks a request to activate a key: it names a key and a machine.
pub fn activation_precheck(key: &str, machine_id: Option<&str>) -> (r: Result<(), ApiError>)
    ensures
        key@.len() == 0 ==> r == Err::<(), ApiError>(ApiError::MissingCode),
        key@.len() > 0 && (machine_id is None || machine_id->0@.len() == 0) ==> r == Err::<
            (),
            ApiError,
        >(ApiError::MissingMachineId),
        key@.len() > 0 && machine_id is Some && machine_id->0@.len() > 0 ==> r is Ok,
{
    require_code(key)?;
    match machine_id {
        Some(m) => if m.unicode_len() == 0 {
            Err(ApiError::MissingMachineId)
        } else {
            Ok(())
        },
        None => Err(ApiError::MissingMachineId),
    }
}

/// What to do with a request to activate the key looked up as `record` for
/// `machine` at `now`.
pub open spec fn activation_step(record: Option<LicenseRecord>, machine: Seq<char>, now: i64) -> ActivationStep {
    match record {
        None => ActivationStep::Reply(LicenseReply::Refused(Refusal::UnknownKey)),
        Some(r) => if expired_at(r, now) {
            ActivationStep::Reply(LicenseReply::Refused(Refusal::Expired))
        } else if r.machine_id is Some {
            if bound_elsewhere(r, machine) {
                ActivationStep::Reply(LicenseReply::Refused(Refusal::BoundToOtherMachine))
            } else {
                ActivationStep::Reply(LicenseReply::Activated { expires_at: r.expires_at })
            }
        } else if r.activation_count >= r.max_activations {
            ActivationStep::Reply(LicenseReply::Refused(Refusal::NoActivationsLeft))
        } else {
            ActivationStep::Bind
        },
    }
}

/// Decides a request to activate the key looked up as `record` for
/// `machine_id` at `now`: unknown and expired keys are refused; a key bound
/// to this machine is answered as activated, one bound to another is
/// refused; an unbound key is refused when its activations are used up, and
/// otherwise bound to the machine.
pub fn plan_activation(record: Option<&LicenseRecord>, machine_id: &str, now: i64) -> (s:
    ActivationStep)
    ensures
        s == activation_step(
            match record {
                Some(r) => Some(*r),
                None => None,
            },
            machine_id@,
            now,
        ),
{
    match record {
        None => ActivationStep::Reply(LicenseReply::Refused(Refusal::UnknownKey)),
        Some(r) => {
            if is_expired(r, now) {
                ActivationStep::Reply(LicenseReply::Refused(Refusal::Expired))
            } else if r.machine_id.is_some() {
                if is_bound_elsewhere(r, machine_id) {
                    ActivationStep::Reply(LicenseReply::Refused(Refusal::BoundToOtherMachine))
                } else {
                    ActivationStep::Reply(LicenseReply::Activated { expires_at: r.expires_at })
                }
            } else if r.activation_count >= r.max_activations {
                ActivationStep::Reply(LicenseReply::Refused(Refusal::NoActivationsLeft))
            } else {
                ActivationStep::Bind
            }
        },
    }
}

/// The answer once binding the key `record` changed `rows_changed` rows:
/// none means another request bound it first.
pub fn finish_activation(record: &LicenseRecord, rows_changed: usize) -> (r: LicenseReply)
    ensures
        rows_changed == 0 ==> r == LicenseReply::Refused(Refusal::ActivationFailed),
        rows_changed > 0 ==> r == (LicenseReply::Activated { expires_at: record.expires_at }),
{
    if rows_changed == 0 {
        LicenseReply::Refused(Refusal::ActivationFailed)
    } else {
        LicenseReply::Activated { expires_at: record.expires_at }
    }
}

/// `after` is the key `before` once bound to `machine` at `now`: the row the
/// activation's update leaves behind.
pub open spec fn is_bound(after: LicenseRecord, before: LicenseRecord, machine: Seq<char>, now: i64) -> bool {
    &&& after.code@ == before.code@
    &&& after.max_activations == before.max_activations
    &&& after.activation_count == before.activation_count + 1
    &&& after.machine_id matches Some(m) && m@ == machine
    &&& after.activated_at == Some(now)
    &&& after.expires_at == before.expires_at
}

/// A new key may always be activated at least once, and an expiry it is
/// given lies after the time it was added.
pub proof fn law_new_key_usable(max_activations: Option<i32>, expires_in_days: Option<i64>, now: i64)
    requires
        expires_in_days is Some ==> expiry_fits(expires_in_days->0 as int, now),
    ensures
        new_license(max_activations, expires_in_days, now).max_activations >= 1,
        new_license(max_activations, expires_in_days, now).expires_at matches Some(e) ==> e > now,
{
}

/// Verifying a key answers by its expiry and its binding alone: a key past
/// its expiry is refused as expired; otherwise a key bound to a machine
/// other than the one the request names is refused as bound elsewhere; in
/// every other case (no machine named, a key bound to no machine, or bound
/// to the machine named) it is valid, with its expiry.
pub proof fn law_verify_answers(r: LicenseRecord, machine: Option<Seq<char>>, now: i64)
    ensures
        (r.expires_at matches Some(e) && now > e) ==> verify_reply(r, machine, now) == LicenseReply::Refused(
            Refusal::Expired,
        ),
        !(r.expires_at matches Some(e) && now > e) && (machine matches Some(m) && (r.machine_id matches Some(b)
            && b@ != m)) ==> verify_reply(r, machine, now) == LicenseReply::Refused(Refusal::BoundToOtherMachine),
        !(r.expires_at matches Some(e) && now > e) && r.machine_id is None ==> verify_reply(r, machine, now) == (
        LicenseReply::Valid { expires_at: r.expires_at }),
        !(r.expires_at matches Some(e) && now > e) && machine is None ==> verify_reply(r, machine, now) == (
        LicenseReply::Valid { expires_at: r.expires_at }),
        !(r.expires_at matches Some(e) && now > e) && (machine matches Some(m) && (r.machine_id matches Some(b)
            && b@ == m)) ==> verify_reply(r, machine, now) == (LicenseReply::Valid { expires_at: r.expires_at }),
{
}

/// A key bound to no machine, not expired and with activations left is
/// bound on activation, whatever machine asks.
pub proof fn law_unbound_key_binds(r: LicenseRecord, machine: Seq<char>, now: i64)
    requires
        r.machine_id is None,
        !(r.expires_at matches Some(e) && now > e),
        r.activation_count < r.max_activations,
    ensures
        activation_step(Some(r), machine, now) == ActivationStep::Bind,
{
}

/// A new key's expiry depends on the requested days and the time alone: a
/// positive count of days gives the time that many days after `now`, any
/// other request none. Its activations depend on the requested count alone:
/// that count when it is at least one, otherwise one.
pub proof fn law_new_key_terms(max_activations: Option<i32>, expires_in_days: Option<i64>, now: i64)
    ensures
        (expires_in_days matches Some(d) && d > 0) ==> new_license(max_activations, expires_in_days, now).expires_at
            == Some((now + expires_in_days->0 * 86_400_000) as i64),
        !(expires_in_days matches Some(d) && d > 0) ==> new_license(max_activations, expires_in_days, now).expires_at
            is None,
        (max_activations matches Some(k) && k >= 1) ==> new_license(max_activations, expires_in_days, now).max_activations
            == max_activations->0,
        !(max_activations matches Some(k) && k >= 1) ==> new_license(max_activations, expires_in_days, now).max_activations
            == 1,
{
}

/// The administrator password, sent as a bearer token, is admitted.
pub proof fn law_bearer_password_admitted(password: Seq<char>)
    requires
        password.len() > 0,
    ensures
        auth_outcome(password, Some("Bearer "@ + password)) == Ok::<(), ApiError>(()),
{
    reveal_strlit("Bearer ");
    let h = "Bearer "@ + password;
    assert(h.subrange(0, 7) =~= "Bearer "@);
    assert(h.skip(7) =~= password);
}

/// Any other header is refused, as is every request while no password is
/// configured.
pub proof fn law_other_headers_refused(password: Seq<char>, authorization: Option<Seq<char>>)
    requires
        authorization != Some("Bearer "@ + password),
    ensures
        auth_outcome(password, authorization) is Err,
{
    reveal_strlit("Bearer ");
    if password.len() > 0 {
        if let Some(h) = authorization {
            if has_prefix(h, "Bearer "@) {
                assert(h =~= "Bearer "@ + h.skip(7));
            }
        }
    }
}

/// Once a key has expired, verifying it keeps being refused as expired.
pub proof fn law_expiry_is_final(r: LicenseRecord, machine: Option<Seq<char>>, t1: i64, t2: i64)
    requires
        t1 <= t2,
        verify_reply(r, machine, t1) == LicenseReply::Refused(Refusal::Expired),
    ensures
        verify_reply(r, machine, t2) == LicenseReply::Refused(Refusal::Expired),
{
}

/// A key bound to a machine by activation is valid for that machine, and for
/// a request that names no machine, until it expires; activating it again
/// on that machine is answered as activated.
pub proof fn law_activated_key_verifies(
    before: LicenseRecord,
    after: LicenseRecord,
    machine: Seq<char>,
    now: i64,
    t: i64,
)
    requires
        activation_step(Some(before), machine, now) == ActivationStep::Bind,
        is_bound(after, before, machine, now),
    ensures
        verify_reply(after, Some(machine), t) == (if expired_at(before, t) {
            LicenseReply::Refused(Refusal::Expired)
        } else {
            LicenseReply::Valid { expires_at: before.expires_at }
        }),
        verify_reply(after, None, t) == verify_reply(after, Some(machine), t),
        activation_step(Some(after), machine, t) == (if expired_at(before, t) {
            ActivationStep::Reply(LicenseReply::Refused(Refusal::Expired))
        } else {
            ActivationStep::Reply(LicenseReply::Activated { expires_at: before.expires_at })
        }),
{
}

/// A key bound to one machine is never accepted for another: verifying it
/// there is refused, and activating it there never binds it again.
pub proof fn law_bound_key_refuses_other_machines(
    before: LicenseRecord,
    after: LicenseRecord,
    machine: Seq<char>,
    other: Seq<char>,
    now: i64,
    t: i64,
)
    requires
        activation_step(Some(before), machine, now) == ActivationStep::Bind,
        is_bound(after, before, machine, now),
        other != machine,
    ensures
        verify_reply(after, Some(other), t) is Refused,
        activation_step(Some(after), other, t) matches ActivationStep::Reply(LicenseReply::Refused(_)),
{
}

/// Activation never takes a key past its allowed number of activations.
pub proof fn law_activations_within_limit(
    before: LicenseRecord,
    after: LicenseRecord,
    machine: Seq<char>,
    now: i64,
)
    requires
        activation_step(Some(before), machine, now) == ActivationStep::Bind,
        is_bound(after, before, machine, now),
    ensures
        after.activation_count <= after.max_activations,
{
}

} // verus!
