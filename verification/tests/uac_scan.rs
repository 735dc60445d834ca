use sysdefense::protocol::{Action, Event, Field, Platform, Resource, ScanError, UacValue};
use sysdefense::uac::{
    assess_uac, decode_prompt_level, describe, find_weaknesses, next_value, queries,
    require_enable_flag, scan_uac, uac_decode, value_name, UacScan, UacValues, UacVerdict,
    Weaknesses, UAC_KEY,
};

const ORDER: [UacValue; 7] = [
    UacValue::EnableLua,
    UacValue::ConsentPromptBehaviorAdmin,
    UacValue::PromptOnSecureDesktop,
    UacValue::EnableInstallerDetection,
    UacValue::ValidateAdminCodeSignatures,
    UacValue::FilterAdministratorToken,
    UacValue::EnableVirtualization,
];

fn replay(scan: &mut UacScan, script: Vec<Event>) -> (Vec<Action>, usize, usize) {
    let mut actions = vec![scan.pending()];
    let mut opened = 0;
    let mut closed = 0;
    for event in script {
        assert_ne!(scan.pending(), Action::Finish, "the script is longer than the scan");
        if matches!(event, Event::Opened(0)) {
            opened += 1;
        }
        let action = scan.step(event);
        if let Action::Release(_) = action {
            closed += 1;
        }
        actions.push(action);
    }
    (actions, opened, closed)
}

fn full_order() -> Vec<Action> {
    let mut expected = vec![Action::Acquire(Resource::Key)];
    for value in ORDER {
        expected.push(Action::Read(Field::Registry(value)));
    }
    expected.push(Action::Release(Resource::Key));
    expected.push(Action::Finish);
    expected
}

fn all(value: Option<u32>) -> UacValues {
    UacValues {
        lua_value: value,
        prompt_level_value: value,
        prompt_on_secure_desktop_value: value,
        installer_detection_value: value,
        validate_admin_code_signatures_value: value,
        filter_admin_token_value: value,
        enable_virtualization_value: value,
    }
}

#[test]
fn value_names_are_the_registry_names() {
    let names: Vec<&str> = ORDER.iter().map(|v| value_name(*v)).collect();
    assert_eq!(
        names,
        vec![
            "EnableLUA",
            "ConsentPromptBehaviorAdmin",
            "PromptOnSecureDesktop",
            "EnableInstallerDetection",
            "ValidateAdminCodeSignatures",
            "FilterAdministratorToken",
            "EnableVirtualization",
        ]
    );
    assert_eq!(queries(), names);
    assert_eq!(UAC_KEY, "SOFTWARE\\Microsoft\\Windows\\CurrentVersion\\Policies\\System");
}

#[test]
fn values_follow_one_another_in_a_fixed_order() {
    for pair in ORDER.windows(2) {
        assert_eq!(next_value(pair[0]), Some(pair[1]));
    }
    assert_eq!(next_value(UacValue::EnableVirtualization), None);
}

#[test]
fn all_seven_values_are_read_and_the_key_closed() {
    let mut scan = scan_uac(Platform::Windows);
    let script = vec![
        Event::Opened(0),
        Event::Word(1),
        Event::Word(5),
        Event::Word(1),
        Event::Word(1),
        Event::Word(0),
        Event::Word(0),
        Event::Word(1),
        Event::Released,
    ];
    let (actions, opened, closed) = replay(&mut scan, script);
    assert_eq!(actions, full_order());
    assert_eq!((opened, closed), (1, 1));
    let info = scan.finish().unwrap();
    assert_eq!(
        info.values,
        UacValues {
            lua_value: Some(1),
            prompt_level_value: Some(5),
            prompt_on_secure_desktop_value: Some(1),
            installer_detection_value: Some(1),
            validate_admin_code_signatures_value: Some(0),
            filter_admin_token_value: Some(0),
            enable_virtualization_value: Some(1),
        }
    );
    assert_eq!(info.module_info.registry_key, UAC_KEY);
    assert_eq!(info.module_info.queries.len(), 7);
    assert_eq!(info.module_info.queries[0], "EnableLUA");
    assert_eq!(info.module_info.queries[6], "EnableVirtualization");
}

#[test]
fn missing_enable_flag_is_unknown_and_the_scan_succeeds() {
    let mut scan = scan_uac(Platform::Windows);
    let script = vec![
        Event::Opened(0),
        Event::Missing,
        Event::Word(2),
        Event::Word(1),
        Event::Word(1),
        Event::Word(1),
        Event::Word(1),
        Event::Word(1),
        Event::Released,
    ];
    let (actions, opened, closed) = replay(&mut scan, script);
    assert_eq!(actions, full_order());
    assert_eq!((opened, closed), (1, 1));
    let info = scan.finish().unwrap();
    assert_eq!(info.values.lua_value, None);
    assert_eq!(info.values.prompt_level_value, Some(2));
    assert_eq!(info.values.get(UacValue::EnableLua), None);
    assert_eq!(assess_uac(&info.values), UacVerdict::Unknown);
}

#[test]
fn reads_that_fail_leave_their_value_unknown() {
    let mut scan = scan_uac(Platform::Windows);
    let script = vec![
        Event::Opened(0),
        Event::Failed(5),
        Event::Missing,
        Event::Failed(234),
        Event::Missing,
        Event::Failed(-1),
        Event::Missing,
        Event::Failed(2),
        Event::Released,
    ];
    let (actions, opened, closed) = replay(&mut scan, script);
    assert_eq!(actions, full_order());
    assert_eq!((opened, closed), (1, 1));
    assert_eq!(scan.finish().unwrap().values, all(None));
}

#[test]
fn a_key_that_does_not_exist_is_reported_as_such() {
    let mut scan = scan_uac(Platform::Windows);
    let (actions, opened, closed) = replay(&mut scan, vec![Event::Opened(2)]);
    assert_eq!(actions, vec![Action::Acquire(Resource::Key), Action::Finish]);
    assert_eq!((opened, closed), (0, 0));
    assert_eq!(scan.finish().unwrap_err(), ScanError::KeyNotFound);
}

#[test]
fn a_key_that_cannot_be_opened_is_an_acquisition_failure() {
    let mut scan = scan_uac(Platform::Windows);
    let (actions, _, closed) = replay(&mut scan, vec![Event::Opened(5)]);
    assert_eq!(actions.last(), Some(&Action::Finish));
    assert_eq!(closed, 0);
    assert_eq!(scan.finish().unwrap_err(), ScanError::Acquisition(Resource::Key, 5));
}

#[test]
fn an_answer_of_the_wrong_kind_closes_the_key() {
    let mut scan = scan_uac(Platform::Windows);
    let script = vec![Event::Opened(0), Event::Word(1), Event::Text("5".to_string()), Event::Released];
    let (actions, opened, closed) = replay(&mut scan, script);
    assert_eq!(
        actions,
        vec![
            Action::Acquire(Resource::Key),
            Action::Read(Field::Registry(UacValue::EnableLua)),
            Action::Read(Field::Registry(UacValue::ConsentPromptBehaviorAdmin)),
            Action::Release(Resource::Key),
            Action::Finish,
        ]
    );
    assert_eq!((opened, closed), (1, 1));
    assert_eq!(
        scan.finish().unwrap_err(),
        ScanError::Protocol(Action::Read(Field::Registry(UacValue::ConsentPromptBehaviorAdmin)))
    );
}

#[test]
fn uac_scan_is_refused_off_windows() {
    let scan = scan_uac(Platform::Other);
    assert_eq!(scan.pending(), Action::Finish);
    assert!(scan.ledger().held().is_empty());
    assert_eq!(scan.finish().unwrap_err(), ScanError::NotWindows);
}

#[test]
fn values_are_stored_under_their_own_name() {
    let mut values = UacValues::new();
    assert_eq!(values, all(None));
    for (i, value) in ORDER.iter().enumerate() {
        values.set(*value, Some(i as u32 + 10));
    }
    for (i, value) in ORDER.iter().enumerate() {
        assert_eq!(values.get(*value), Some(i as u32 + 10));
    }
    assert_eq!(values.filter_admin_token_value, Some(15));
    values.set(UacValue::EnableLua, None);
    assert_eq!(values.lua_value, None);
    assert_eq!(values.prompt_level_value, Some(11));
}

#[test]
fn switch_values_have_names() {
    assert_eq!(uac_decode(0), "Disabled");
    assert_eq!(uac_decode(1), "Enabled");
    assert_eq!(uac_decode(2), "Unknown");
    assert_eq!(uac_decode(u32::MAX), "Unknown");
    assert_eq!(describe(Some(0)), "Disabled");
    assert_eq!(describe(Some(1)), "Enabled");
    assert_eq!(describe(Some(7)), "Unknown");
    assert_eq!(describe(None), "Unknown");
}

#[test]
fn prompt_levels_have_descriptions() {
    assert_eq!(decode_prompt_level(0), "Never notify (Least Secure)");
    assert_eq!(decode_prompt_level(1), "Prompt for credentials on secure desktop");
    assert_eq!(decode_prompt_level(2), "Prompt for consent on secure desktop");
    assert_eq!(decode_prompt_level(3), "Prompt for credentials");
    assert_eq!(decode_prompt_level(4), "Prompt for consent");
    assert_eq!(
        decode_prompt_level(5),
        "Prompt for consent for non-Windows binaries (Most Secure, Default)"
    );
    assert_eq!(decode_prompt_level(6), "Unknown configuration");
    assert_eq!(decode_prompt_level(u32::MAX), "Unknown configuration");
}

#[test]
fn verdict_follows_the_enable_flag_then_the_prompt_level() {
    let mut values = all(Some(1));
    assert_eq!(assess_uac(&values), UacVerdict::Enabled);
    values.prompt_level_value = Some(0);
    assert_eq!(assess_uac(&values), UacVerdict::NeverNotifies);
    values.lua_value = Some(0);
    assert_eq!(assess_uac(&values), UacVerdict::Disabled);
    values.lua_value = None;
    assert_eq!(assess_uac(&values), UacVerdict::Unknown);
    values.lua_value = Some(1);
    values.prompt_level_value = None;
    assert_eq!(assess_uac(&values), UacVerdict::Enabled);
}

#[test]
fn unknown_switches_are_not_weaknesses() {
    let none = Weaknesses {
        secure_desktop_off: false,
        installer_detection_off: false,
        signature_validation_off: false,
        virtualization_off: false,
    };
    assert_eq!(find_weaknesses(&all(None)), none);
    assert_eq!(find_weaknesses(&all(Some(1))), none);
    assert_eq!(
        find_weaknesses(&all(Some(0))),
        Weaknesses {
            secure_desktop_off: true,
            installer_detection_off: true,
            signature_validation_off: true,
            virtualization_off: true,
        }
    );
    let mut values = all(Some(1));
    values.validate_admin_code_signatures_value = Some(0);
    values.filter_admin_token_value = Some(0);
    assert_eq!(find_weaknesses(&values), Weaknesses { signature_validation_off: true, ..none });
}

#[test]
fn a_mandatory_enable_flag_must_have_been_read() {
    assert_eq!(require_enable_flag(&all(Some(1))), Ok(1));
    assert_eq!(require_enable_flag(&all(Some(0))), Ok(0));
    let mut values = all(Some(1));
    values.lua_value = None;
    assert_eq!(
        require_enable_flag(&values),
        Err(ScanError::Query(Field::Registry(UacValue::EnableLua), 2))
    );
}
