//! The desktop application's license: a seven-day trial that starts on first
//! launch, and an activated state once a license key has been stored.
use vstd::prelude::*;

use std::hash::{Hash, Hasher};

use crate::text::{concat3, decimal, decimal_string, is_hex_char, lemma_u64_lower_hex_shape, lower_hex, lower_hex_string};

verus! {

/// Length of the trial, in days.
pub const TRIAL_DAYS: u64 = 7;

/// Milliseconds in a day.
pub const DAY_MS: u64 = 86_400_000;

/// Where the desktop application asks the license server to verify a key.
pub const VERIFY_URL: &'static str = "https://pc-clinet-navy.vercel.app/api/license/verify";

/// Where the desktop application asks the license server to activate a key.
pub const ACTIVATE_URL: &'static str = "https://pc-clinet-navy.vercel.app/api/license/activate";

/// The state a license is in.
#[derive(Debug, Clone, Copy, PartialEq, Eq, Structural)]
pub enum LicenseStatus {
    Trial,
    Active,
    Expired,
}

/// What the user interface shows about the license.
#[derive(Debug, Clone)]
pub struct LicenseInfo {
    pub status: LicenseStatus,
    pub trial_days_total: u32,
    pub trial_days_left: i64,
    pub license_key: Option<String>,
    pub message: String,
}

/// What is kept on disk about the license.
#[derive(Debug)]
pub struct LicenseStore {
    pub trial_start_ms: u64,
    pub license_key: Option<String>,
    pub machine_id: String,
}

/// Errors of the license manager.
#[derive(Debug, Clone, Copy, PartialEq, Eq, Structural)]
pub enum LicenseError {
    /// No license store has been set up.
    NotInitialized,
}

impl LicenseError {
    /// The text of the error.
    pub fn message(&self) -> (s: String)
        ensures
            s@ == "license store not initialized"@,
    {
        "license store not initialized".to_owned()
    }
}

/// The license of this installation, and the file it is saved to.
pub struct LicenseManager {
    store: Option<LicenseStore>,
    path: String,
}

/// Whole days from `start` to `now`; none when `now` is before `start`.
pub open spec fn elapsed_days(start: u64, now: u64) -> int {
    if now >= start {
        (now - start) / (DAY_MS as int)
    } else {
        0
    }
}

/// Days of trial left at `now` for a trial that began at `start`.
pub open spec fn days_left(start: u64, now: u64) -> int {
    if elapsed_days(start, now) >= TRIAL_DAYS {
        0
    } else {
        TRIAL_DAYS - elapsed_days(start, now)
    }
}

/// The message shown while `days` days of trial are left.
pub open spec fn trial_message(days: nat) -> Seq<char> {
    "试用期还剩 "@ + decimal(days) + " 天"@
}

/// The message shown once a license key is stored.
pub open spec fn active_message() -> Seq<char> {
    "已激活正版授权"@
}

/// The message shown once the trial is over.
pub open spec fn expired_message() -> Seq<char> {
    "试用已过期，请购买授权激活"@
}

/// The status of a license with store `store` at time `now`.
pub open spec fn status_at(store: Option<LicenseStore>, now: u64) -> LicenseStatus {
    match store {
        None => LicenseStatus::Trial,
        Some(s) => if s.license_key is Some {
            LicenseStatus::Active
        } else if days_left(s.trial_start_ms, now) > 0 {
            LicenseStatus::Trial
        } else {
            LicenseStatus::Expired
        },
    }
}

/// The trial days reported as left for store `store` at time `now`.
pub open spec fn days_left_at(store: Option<LicenseStore>, now: u64) -> int {
    match store {
        None => TRIAL_DAYS as int,
        Some(s) => if s.license_key is Some {
            0
        } else {
            days_left(s.trial_start_ms, now)
        },
    }
}

/// The message reported for store `store` at time `now`.
pub open spec fn message_at(store: Option<LicenseStore>, now: u64) -> Seq<char> {
    match status_at(store, now) {
        LicenseStatus::Active => active_message(),
        LicenseStatus::Expired => expired_message(),
        LicenseStatus::Trial => trial_message(days_left_at(store, now) as nat),
    }
}

/// The key reported for store `store`.
pub open spec fn key_of(store: Option<LicenseStore>) -> Option<String> {
    match store {
        None => None,
        Some(s) => s.license_key,
    }
}

/// `info` is what the license with store `store` reports at time `now`.
pub open spec fn reports(info: LicenseInfo, store: Option<LicenseStore>, now: u64) -> bool {
    &&& info.status == status_at(store, now)
    &&& info.trial_days_total == TRIAL_DAYS
    &&& info.trial_days_left == days_left_at(store, now)
    &&& info.license_key == key_of(store)
    &&& info.message@ == message_at(store, now)
}

/// `store` with `key` recorded as its license key.
pub open spec fn with_key(store: LicenseStore, key: String) -> LicenseStore {
    LicenseStore { license_key: Some(key), ..store }
}

/// Reads the system clock: whole milliseconds since the Unix epoch.
///
/// Wraps `std::time::SystemTime::now`; the instant is measured against
/// `UNIX_EPOCH` (zero when the clock is before the epoch) and given in
/// milliseconds. Nothing is stated of the value: it depends on the time at
/// which the clock is read.
#[verifier::external_body]
fn system_time_ms() -> (ms: u128) {
    std::time::SystemTime::now().duration_since(std::time::UNIX_EPOCH).unwrap_or_default().as_millis()
}

/// The clock in milliseconds since the epoch, cut to 64 bits.
fn now_ms() -> (ms: u64) {
    let ms = system_time_ms();
    #[verifier::truncate]
    (ms as u64)
}

/// The hash that std's `DefaultHasher`, made by `DefaultHasher::new()`,
/// gives of a string with the characters `text`.
pub uninterp spec fn default_hash(text: Seq<char>) -> u64;

/// Hashes `text` with a `DefaultHasher` made by `DefaultHasher::new()`:
/// `Hash::hash` of the string, then `Hasher::finish`. Such hashers are not
/// seeded per process, so equal strings hash equally; the value itself is
/// named, not stated.
#[verifier::external_body]
fn hash_text(text: &str) -> (h: u64)
    ensures
        h == default_hash(text@),
{
    let mut hasher = std::collections::hash_map::DefaultHasher::new();
    text.hash(&mut hasher);
    hasher.finish()
}

/// The identifier of a machine whose platform is described by `platform`
/// (its operating system and architecture, as `os-arch`): the hash of that
/// text in lower-case hexadecimal.
pub fn machine_id_for(platform: &str) -> (id: String)
    ensures
        id@ == lower_hex(default_hash(platform@) as nat),
{
    lower_hex_string(hash_text(platform))
}

/// A machine identifier is one to sixteen lower-case hexadecimal digits, and
/// machines on the same platform get the same identifier.
pub proof fn law_machine_id_shape(platform: Seq<char>, other: Seq<char>)
    ensures
        1 <= lower_hex(default_hash(platform) as nat).len() <= 16,
        forall|i: int|
            0 <= i < lower_hex(default_hash(platform) as nat).len() ==> is_hex_char(
                #[trigger] lower_hex(default_hash(platform) as nat)[i],
            ),
        platform == other ==> lower_hex(default_hash(platform) as nat) == lower_hex(
            default_hash(other) as nat,
        ),
{
    lemma_u64_lower_hex_shape(default_hash(platform));
}

fn clone_key(key: &Option<String>) -> (r: Option<String>)
    ensures
        r == *key,
{
    match key {
        Some(k) => Some(k.clone()),
        None => None,
    }
}

/// Once a license key is stored, the license reports itself active with that
/// key at every time, and the machine it is bound to stays the same.
pub proof fn law_stored_key_activates(store: LicenseStore, key: String, now: u64)
    ensures
        status_at(Some(with_key(store, key)), now) == LicenseStatus::Active,
        key_of(Some(with_key(store, key))) == Some(key),
        days_left_at(Some(with_key(store, key)), now) == 0,
        message_at(Some(with_key(store, key)), now) == active_message(),
        with_key(store, key).machine_id == store.machine_id,
{
}

/// As time passes, the trial days reported as left never go up.
pub proof fn law_days_left_never_increase(store: Option<LicenseStore>, t1: u64, t2: u64)
    requires
        t1 <= t2,
    ensures
        days_left_at(store, t2) <= days_left_at(store, t1),
{
    if let Some(s) = store {
        if t1 >= s.trial_start_ms {
            vstd::arithmetic::div_mod::lemma_div_is_ordered(
                (t1 - s.trial_start_ms) as int,
                (t2 - s.trial_start_ms) as int,
                DAY_MS as int,
            );
        }
    }
}

/// Once the trial has expired, it stays expired.
pub proof fn law_expiry_is_final(store: Option<LicenseStore>, t1: u64, t2: u64)
    requires
        t1 <= t2,
        status_at(store, t1) == LicenseStatus::Expired,
    ensures
        status_at(store, t2) == LicenseStatus::Expired,
{
    law_days_left_never_increase(store, t1, t2);
}

/// A trial without a key lasts exactly seven days from its start: it is in
/// trial, with all seven days left at its first moment, until seven whole
/// days have passed, and expired from then on.
pub proof fn law_trial_lasts_seven_days(store: LicenseStore, now: u64)
    requires
        store.license_key is None,
        now >= store.trial_start_ms,
    ensures
        status_at(Some(store), now) == LicenseStatus::Trial <==> now - store.trial_start_ms < TRIAL_DAYS
            * DAY_MS,
        status_at(Some(store), now) == LicenseStatus::Expired <==> now - store.trial_start_ms
            >= TRIAL_DAYS * DAY_MS,
        days_left_at(Some(store), store.trial_start_ms) == TRIAL_DAYS,
{
    let e = (now - store.trial_start_ms) as int;
    let d = DAY_MS as int;
    if e < 7 * d {
        assert(e / d < 7) by {
            vstd::arithmetic::div_mod::lemma_div_is_ordered(e, 7 * d - 1, d);
            vstd::arithmetic::div_mod::lemma_fundamental_div_mod(7 * d - 1, d);
        }
    } else {
        vstd::arithmetic::div_mod::lemma_div_is_ordered(7 * d, e, d);
        vstd::arithmetic::div_mod::lemma_div_by_multiple(7, d);
    }
    assert(elapsed_days(store.trial_start_ms, store.trial_start_ms) == 0);
}

impl LicenseManager {
    /// The license store held, if any.
    pub closed spec fn spec_store(&self) -> Option<LicenseStore> {
        self.store
    }

    /// The file the license is saved to.
    pub closed spec fn spec_path(&self) -> Seq<char> {
        self.path@
    }

    /// Sets up the license of this installation at time `now`.
    ///
    /// `loaded` is what could be read from the license file at `path`. When
    /// there was none, a new trial starts at `now`, bound to `machine_id`;
    /// the caller then saves it.
    pub fn new_at(path: String, loaded: Option<LicenseStore>, machine_id: String, now: u64) -> (m: Self)
        ensures
            m.spec_path() == path@,
            loaded is Some ==> m.spec_store() == loaded,
            loaded is None ==> m.spec_store() == Some(
                (LicenseStore { trial_start_ms: now, license_key: None, machine_id }),
            ),
    {
        match loaded {
            Some(s) => LicenseManager { store: Some(s), path },
            None => {
                let store = LicenseStore { trial_start_ms: now, license_key: None, machine_id };
                LicenseManager { store: Some(store), path }
            },
        }
    }

    /// Sets up the license of this installation, reading the clock when a
    /// new trial has to start: as `new_at` at that reading.
    pub fn new(path: String, loaded: Option<LicenseStore>, machine_id: String) -> (m: Self)
        ensures
            m.spec_path() == path@,
            m.spec_store() is Some,
            loaded is Some ==> m.spec_store() == loaded,
            loaded is None ==> exists|now: u64|
                m.spec_store() == Some((LicenseStore { trial_start_ms: now, license_key: None, machine_id })),
    {
        let now: u64 = if loaded.is_none() {
            now_ms()
        } else {
            0
        };
        Self::new_at(path, loaded, machine_id, now)
    }

    /// The license store held, if any.
    pub fn store(&self) -> (s: Option<&LicenseStore>)
        ensures
            s == match self.spec_store() {
                Some(st) => Some(&st),
                None => None::<&LicenseStore>,
            },
    {
        match &self.store {
            Some(s) => Some(s),
            None => None,
        }
    }

    /// The file the license is saved to.
    pub fn path(&self) -> (p: &str)
        ensures
            p@ == self.spec_path(),
    {
        self.path.as_str()
    }

    /// What the license reports at time `now` (milliseconds since the epoch).
    pub fn info_at(&self, now: u64) -> (info: LicenseInfo)
        ensures
            reports(info, self.spec_store(), now),
    {
        proof {
            reveal_strlit("已激活正版授权");
            reveal_strlit("试用已过期，请购买授权激活");
        }
        match &self.store {
            None => {
                let days: u128 = 7;
                LicenseInfo {
                    status: LicenseStatus::Trial,
                    trial_days_total: 7,
                    trial_days_left: 7,
                    license_key: None,
                    message: concat3("试用期还剩 ", decimal_string(days).as_str(), " 天"),
                }
            },
            Some(store) => {
                if store.license_key.is_some() {
                    return LicenseInfo {
                        status: LicenseStatus::Active,
                        trial_days_total: 7,
                        trial_days_left: 0,
                        license_key: clone_key(&store.license_key),
                        message: "已激活正版授权".to_owned(),
                    };
                }
                let elapsed: u64 = if now >= store.trial_start_ms {
                    (now - store.trial_start_ms) / DAY_MS
                } else {
                    0
                };
                let left: i64 = if elapsed >= TRIAL_DAYS {
                    0
                } else {
                    7 - (elapsed as i64)
                };
                if left > 0 {
                    let days: u128 = left as u128;
                    LicenseInfo {
                        status: LicenseStatus::Trial,
                        trial_days_total: 7,
                        trial_days_left: left,
                        license_key: None,
                        message: concat3("试用期还剩 ", decimal_string(days).as_str(), " 天"),
                    }
                } else {
                    LicenseInfo {
                        status: LicenseStatus::Expired,
                        trial_days_total: 7,
                        trial_days_left: 0,
                        license_key: None,
                        message: "试用已过期，请购买授权激活".to_owned(),
                    }
                }
            },
        }
    }

    /// What the license reports now. The clock is read once; the report is
    /// the one `info_at` gives for that reading.
    pub fn get_info(&self) -> (info: LicenseInfo)
        ensures
            exists|now: u64| reports(info, self.spec_store(), now),
    {
        let now = now_ms();
        self.info_at(now)
    }

    /// Records `key` as the license key. The caller then saves the store.
    pub fn set_license_key(&mut self, key: String) -> (r: Result<(), LicenseError>)
        ensures
            final(self).spec_path() == old(self).spec_path(),
            old(self).spec_store() is None ==> r == Err::<(), LicenseError>(LicenseError::NotInitialized)
                && final(self).spec_store() is None,
            old(self).spec_store() is Some ==> r is Ok && final(self).spec_store() == Some(
                with_key(old(self).spec_store()->0, key),
            ),
    {
        match &mut self.store {
            None => Err(LicenseError::NotInitialized),
            Some(store) => {
                store.license_key = Some(key);
                Ok(())
            },
        }
    }

    /// The identifier of this machine; empty when no store is held.
    pub fn machine_id(&self) -> (id: String)
        ensures
            id@ == match self.spec_store() {
                Some(s) => s.machine_id@,
                None => Seq::<char>::empty(),
            },
    {
        match &self.store {
            Some(s) => s.machine_id.clone(),
            None => String::new(),
        }
    }
}

} // verus!
