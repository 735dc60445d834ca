use sysdefense::defender::{
    get_defender_status, get_signature_last_update, get_signature_version, is_defender_enabled,
    is_defender_installed, is_real_time_protection_enabled, DefenderError, KeyProbe,
    RegistryFailure, DEFENDER_KEY, REAL_TIME_KEY, SIGNATURE_KEY,
};

fn missing() -> RegistryFailure {
    RegistryFailure { not_found: true, message: "not found".to_string() }
}

fn denied() -> RegistryFailure {
    RegistryFailure { not_found: false, message: "access denied".to_string() }
}

fn is_not_windows<T>(r: &Result<T, DefenderError>) -> bool {
    matches!(r, Err(DefenderError::NotWindows))
}

fn is_access_denied<T>(r: &Result<T, DefenderError>) -> bool {
    matches!(r, Err(DefenderError::RegistryAccess(f)) if !f.not_found && f.message == "access denied")
}

#[test]
fn key_paths_are_below_the_product_root() {
    assert_eq!(DEFENDER_KEY, "SOFTWARE\\Microsoft\\Windows Defender");
    assert_eq!(SIGNATURE_KEY, "SOFTWARE\\Microsoft\\Windows Defender\\Signature Updates");
    assert_eq!(REAL_TIME_KEY, "SOFTWARE\\Microsoft\\Windows Defender\\Real-Time Protection");
}

#[test]
fn every_check_fails_fast_off_windows() {
    assert!(is_not_windows(&is_defender_installed(KeyProbe::NotWindows)));
    assert!(is_not_windows(&is_defender_enabled(KeyProbe::NotWindows)));
    assert!(is_not_windows(&is_real_time_protection_enabled(KeyProbe::NotWindows)));
    assert!(is_not_windows(&get_signature_version(KeyProbe::NotWindows)));
    assert!(is_not_windows(&get_signature_last_update(KeyProbe::NotWindows)));
    let status = get_defender_status(
        is_defender_installed(KeyProbe::NotWindows),
        is_defender_enabled(KeyProbe::NotWindows),
        is_real_time_protection_enabled(KeyProbe::NotWindows),
        get_signature_version(KeyProbe::NotWindows),
        get_signature_last_update(KeyProbe::NotWindows),
    );
    assert!(is_not_windows(&status));
}

#[test]
fn installed_means_the_root_key_opens() {
    assert!(matches!(is_defender_installed(KeyProbe::Opened(())), Ok(true)));
    assert!(matches!(is_defender_installed(KeyProbe::Failed(missing())), Ok(false)));
    assert!(is_access_denied(&is_defender_installed(KeyProbe::Failed(denied()))));
}

#[test]
fn enabled_unless_the_switch_is_set() {
    assert!(matches!(is_defender_enabled(KeyProbe::Opened(Ok(0))), Ok(true)));
    assert!(matches!(is_defender_enabled(KeyProbe::Opened(Ok(1))), Ok(false)));
    assert!(matches!(is_defender_enabled(KeyProbe::Opened(Ok(u32::MAX))), Ok(false)));
    assert!(matches!(is_defender_enabled(KeyProbe::Opened(Err(missing()))), Ok(true)));
    assert!(is_access_denied(&is_defender_enabled(KeyProbe::Opened(Err(denied())))));
    assert!(is_access_denied(&is_defender_enabled(KeyProbe::Failed(denied()))));
    assert!(matches!(
        is_defender_enabled(KeyProbe::Failed(missing())),
        Err(DefenderError::RegistryAccess(f)) if f.not_found
    ));
}

#[test]
fn real_time_protection_is_off_without_its_key() {
    assert!(matches!(is_real_time_protection_enabled(KeyProbe::Failed(missing())), Ok(false)));
    assert!(is_access_denied(&is_real_time_protection_enabled(KeyProbe::Failed(denied()))));
    assert!(matches!(is_real_time_protection_enabled(KeyProbe::Opened(Ok(0))), Ok(true)));
    assert!(matches!(is_real_time_protection_enabled(KeyProbe::Opened(Ok(1))), Ok(false)));
    assert!(matches!(is_real_time_protection_enabled(KeyProbe::Opened(Err(missing()))), Ok(true)));
    assert!(is_access_denied(&is_real_time_protection_enabled(KeyProbe::Opened(Err(denied())))));
}

#[test]
fn signature_version_prefers_the_first_name() {
    let both = KeyProbe::Opened((Ok("1.401.22.0".to_string()), Ok("1.0.0.0".to_string())));
    assert_eq!(get_signature_version(both).unwrap(), "1.401.22.0");
    let only_primary = KeyProbe::Opened((Ok("1.401.22.0".to_string()), Err(missing())));
    assert_eq!(get_signature_version(only_primary).unwrap(), "1.401.22.0");
}

#[test]
fn signature_version_falls_back_to_the_alternate_name() {
    let fallback = KeyProbe::Opened((Err(missing()), Ok("1.0.0.0".to_string())));
    assert_eq!(get_signature_version(fallback).unwrap(), "1.0.0.0");
}

#[test]
fn signature_version_not_found_under_either_name() {
    let neither = KeyProbe::Opened((Err(missing()), Err(missing())));
    assert!(matches!(
        get_signature_version(neither),
        Err(DefenderError::ValueNotFound(what)) if what == "Signature version"
    ));
    let alternate_denied = KeyProbe::Opened((Err(missing()), Err(denied())));
    assert!(matches!(
        get_signature_version(alternate_denied),
        Err(DefenderError::ValueNotFound(what)) if what == "Signature version"
    ));
}

#[test]
fn signature_version_access_failures_are_errors() {
    let primary_denied = KeyProbe::Opened((Err(denied()), Ok("1.0.0.0".to_string())));
    assert!(is_access_denied(&get_signature_version(primary_denied)));
    assert!(is_access_denied(&get_signature_version(KeyProbe::Failed(denied()))));
    assert!(matches!(
        get_signature_version(KeyProbe::Failed(missing())),
        Err(DefenderError::RegistryAccess(f)) if f.not_found
    ));
}

#[test]
fn signature_time_follows_the_same_rule_under_its_own_label() {
    let primary = KeyProbe::Opened((Ok("2024-01-01".to_string()), Err(missing())));
    assert_eq!(get_signature_last_update(primary).unwrap(), "2024-01-01");
    let fallback = KeyProbe::Opened((Err(missing()), Ok("2023-12-31".to_string())));
    assert_eq!(get_signature_last_update(fallback).unwrap(), "2023-12-31");
    let neither = KeyProbe::Opened((Err(missing()), Err(missing())));
    assert!(matches!(
        get_signature_last_update(neither),
        Err(DefenderError::ValueNotFound(what)) if what == "Signature update time"
    ));
}

#[test]
fn status_combines_the_five_checks() {
    let status = get_defender_status(
        Ok(true),
        Ok(false),
        Ok(true),
        Ok("1.401.22.0".to_string()),
        Err(DefenderError::ValueNotFound("Signature update time".to_string())),
    )
    .unwrap();
    assert!(status.installed);
    assert!(!status.enabled);
    assert!(status.real_time_protection);
    assert_eq!(status.signature_version.as_deref(), Some("1.401.22.0"));
    assert_eq!(status.signature_last_updated, None);
}

#[test]
fn status_fails_with_the_first_mandatory_failure() {
    let first = get_defender_status(
        Err(DefenderError::RegistryAccess(denied())),
        Err(DefenderError::NotWindows),
        Ok(true),
        Ok("v".to_string()),
        Ok("t".to_string()),
    );
    assert!(is_access_denied(&first));
    let second = get_defender_status(
        Ok(true),
        Err(DefenderError::NotWindows),
        Err(DefenderError::RegistryAccess(denied())),
        Ok("v".to_string()),
        Ok("t".to_string()),
    );
    assert!(is_not_windows(&second));
    let third = get_defender_status(
        Ok(true),
        Ok(true),
        Err(DefenderError::RegistryAccess(denied())),
        Ok("v".to_string()),
        Ok("t".to_string()),
    );
    assert!(is_access_denied(&third));
}

#[test]
fn status_survives_missing_signature_texts() {
    let status = get_defender_status(
        Ok(false),
        Ok(true),
        Ok(false),
        Err(DefenderError::NotWindows),
        Err(DefenderError::RegistryAccess(denied())),
    )
    .unwrap();
    assert!(!status.installed);
    assert!(status.enabled);
    assert!(!status.real_time_protection);
    assert_eq!(status.signature_version, None);
    assert_eq!(status.signature_last_updated, None);
}
