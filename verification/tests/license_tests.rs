use std::hash::{Hash, Hasher};
use tts_studio::license::{machine_id_for, LicenseError, LicenseManager, LicenseStatus, LicenseStore, DAY_MS, TRIAL_DAYS};

fn store(start: u64, key: Option<&str>) -> LicenseStore {
    LicenseStore {
        trial_start_ms: start,
        license_key: key.map(|k| k.to_string()),
        machine_id: "abc123".to_string(),
    }
}

#[test]
fn trial_starts_with_seven_days() {
    let m = LicenseManager::new("license.json".to_string(), Some(store(1_000, None)), "x".to_string());
    let info = m.info_at(1_000);
    assert_eq!(info.status, LicenseStatus::Trial);
    assert_eq!(info.trial_days_total, 7);
    assert_eq!(info.trial_days_left, 7);
    assert_eq!(info.license_key, None);
    assert_eq!(info.message, "试用期还剩 7 天");
}

#[test]
fn trial_counts_down_by_whole_days() {
    let m = LicenseManager::new("p".to_string(), Some(store(0, None)), "x".to_string());
    let info = m.info_at(3 * DAY_MS + 1);
    assert_eq!(info.status, LicenseStatus::Trial);
    assert_eq!(info.trial_days_left, 4);
    assert_eq!(info.message, "试用期还剩 4 天");
    let info = m.info_at(7 * DAY_MS - 1);
    assert_eq!(info.trial_days_left, 1);
    assert_eq!(info.message, "试用期还剩 1 天");
}

#[test]
fn trial_expires_after_seven_days() {
    let m = LicenseManager::new("p".to_string(), Some(store(0, None)), "x".to_string());
    for t in [7 * DAY_MS, 8 * DAY_MS, 1000 * DAY_MS] {
        let info = m.info_at(t);
        assert_eq!(info.status, LicenseStatus::Expired);
        assert_eq!(info.trial_days_left, 0);
        assert_eq!(info.message, "试用已过期，请购买授权激活");
    }
    assert_eq!(TRIAL_DAYS, 7);
}

#[test]
fn clock_before_trial_start_counts_as_no_time() {
    let m = LicenseManager::new("p".to_string(), Some(store(10 * DAY_MS, None)), "x".to_string());
    let info = m.info_at(0);
    assert_eq!(info.status, LicenseStatus::Trial);
    assert_eq!(info.trial_days_left, 7);
}

#[test]
fn stored_key_is_active() {
    let m = LicenseManager::new("p".to_string(), Some(store(0, Some("KEY-1"))), "x".to_string());
    let info = m.info_at(100 * DAY_MS);
    assert_eq!(info.status, LicenseStatus::Active);
    assert_eq!(info.trial_days_left, 0);
    assert_eq!(info.license_key.as_deref(), Some("KEY-1"));
    assert_eq!(info.message, "已激活正版授权");
}

#[test]
fn set_key_then_info_is_active_and_keeps_machine() {
    let mut m = LicenseManager::new("p".to_string(), Some(store(0, None)), "x".to_string());
    assert_eq!(m.info_at(30 * DAY_MS).status, LicenseStatus::Expired);
    assert_eq!(m.set_license_key("NEW-KEY".to_string()), Ok(()));
    let info = m.info_at(30 * DAY_MS);
    assert_eq!(info.status, LicenseStatus::Active);
    assert_eq!(info.license_key.as_deref(), Some("NEW-KEY"));
    assert_eq!(m.machine_id(), "abc123");
    assert_eq!(m.path(), "p");
    assert_eq!(m.store().unwrap().license_key.as_deref(), Some("NEW-KEY"));
}

#[test]
fn new_without_store_starts_a_fresh_trial() {
    let m = LicenseManager::new("p".to_string(), None, "machine-9".to_string());
    assert_eq!(m.machine_id(), "machine-9");
    let info = m.get_info();
    assert_eq!(info.status, LicenseStatus::Trial);
    assert_eq!(info.trial_days_left, 7);
    assert!(m.store().unwrap().license_key.is_none());
}

#[test]
fn get_info_reads_the_clock() {
    let m = LicenseManager::new("p".to_string(), Some(store(0, None)), "x".to_string());
    let info = m.get_info();
    assert_eq!(info.status, LicenseStatus::Expired);
    assert_eq!(info.message, "试用已过期，请购买授权激活");
}

#[test]
fn license_error_message() {
    assert_eq!(LicenseError::NotInitialized.message(), "license store not initialized");
}

#[test]
fn days_left_never_go_up() {
    let m = LicenseManager::new("p".to_string(), Some(store(0, None)), "x".to_string());
    let mut last = i64::MAX;
    for day in 0..10u64 {
        let left = m.info_at(day * DAY_MS + 5).trial_days_left;
        assert!(left <= last);
        last = left;
    }
    assert_eq!(last, 0);
}

#[test]
fn fresh_trial_starts_at_the_given_time() {
    let m = LicenseManager::new_at("p".to_string(), None, "mid".to_string(), 5 * DAY_MS);
    let s = m.store().unwrap();
    assert_eq!(s.trial_start_ms, 5 * DAY_MS);
    assert_eq!(s.license_key, None);
    assert_eq!(s.machine_id, "mid");
    assert_eq!(m.info_at(5 * DAY_MS).trial_days_left, 7);
    let kept = LicenseManager::new_at("p".to_string(), Some(store(1, None)), "other".to_string(), 99);
    assert_eq!(kept.store().unwrap().trial_start_ms, 1);
    assert_eq!(kept.machine_id(), "abc123");
}

#[test]
fn machine_id_is_the_platform_hash_in_hex() {
    let platform = "linux-x86_64";
    let mut h = std::collections::hash_map::DefaultHasher::new();
    platform.to_string().hash(&mut h);
    let id = machine_id_for(platform);
    assert_eq!(id, format!("{:x}", h.finish()));
    assert!(!id.is_empty() && id.len() <= 16);
    assert!(id.chars().all(|c| c.is_ascii_hexdigit() && !c.is_ascii_uppercase()));
    assert_eq!(machine_id_for(platform), id);
    assert_ne!(machine_id_for("windows-x86_64"), id);
}
