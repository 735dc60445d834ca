use sysdefense::antivirus::{ProductInfo, FIREWALL_QUERY};
use sysdefense::firewall::{
    count_active, is_protected, profile_id, scan_firewall, FirewallProfileDetails,
    WindowsFirewallProfile, NET_FW_ACTION_BLOCK, VARIANT_TRUE,
};
use sysdefense::protocol::{
    Action, Event, Field, Platform, Profile, Property, Resource, ScanError, Setting,
};
use sysdefense::security_center::ProductScan;
use sysdefense::session::S_OK;
use sysdefense::value::{PropertyValue, VT_BSTR, VT_I4};

fn play(scan: &mut ProductScan, script: Vec<(Event, bool)>) -> (Vec<Action>, usize, usize) {
    let mut actions = vec![scan.pending()];
    let mut opened = 0;
    let mut closed = 0;
    for (event, grants) in script {
        assert_ne!(scan.pending(), Action::Finish, "the script is longer than the scan");
        if grants {
            opened += 1;
        }
        let action = scan.step(event);
        if let Action::Release(_) = action {
            closed += 1;
        }
        actions.push(action);
    }
    (actions, opened, closed)
}

fn profile(enabled: bool, inbound: i32, outbound: i32, quiet: bool) -> Vec<(Event, bool)> {
    vec![
        (Event::Flag(if enabled { VARIANT_TRUE } else { 0 }), false),
        (Event::Long(inbound), false),
        (Event::Long(outbound), false),
        (Event::Flag(if quiet { VARIANT_TRUE } else { 0 }), false),
    ]
}

fn policy_read() -> Vec<(Event, bool)> {
    let mut script = vec![(Event::Status(S_OK), true), (Event::Granted, true)];
    script.extend(profile(true, NET_FW_ACTION_BLOCK, 1, false));
    script.extend(profile(false, 1, NET_FW_ACTION_BLOCK, true));
    script.extend(profile(true, NET_FW_ACTION_BLOCK, NET_FW_ACTION_BLOCK, true));
    script
}

fn product_row(script: &mut Vec<(Event, bool)>, name: &str, state: i32) {
    script.push((Event::Fetched(1, true), true));
    script.push((
        Event::Property(PropertyValue { tag: VT_BSTR, long: 0, text: name.to_string() }),
        true,
    ));
    script.push((Event::Released, false));
    script.push((
        Event::Property(PropertyValue { tag: VT_I4, long: state, text: String::new() }),
        true,
    ));
    script.push((Event::Released, false));
    script.push((Event::Released, false));
}

fn details(enabled: bool, inbound: bool, outbound: bool, quiet: bool) -> FirewallProfileDetails {
    FirewallProfileDetails {
        profile_enabled: enabled,
        inbound_blocked: inbound,
        outbound_blocked: outbound,
        notifications_disabled: quiet,
    }
}

fn all_off() -> WindowsFirewallProfile {
    let off = details(false, false, false, false);
    WindowsFirewallProfile { public: off, private: off, domain: off }
}

fn listed(name: &str, state: i32) -> ProductInfo {
    ProductInfo::new(name.to_string(), state)
}

#[test]
fn profile_identifiers_are_the_documented_ones() {
    assert_eq!(profile_id(Profile::Domain), 1);
    assert_eq!(profile_id(Profile::Private), 2);
    assert_eq!(profile_id(Profile::Public), 4);
    assert_eq!(NET_FW_ACTION_BLOCK, 0);
    assert_eq!(VARIANT_TRUE, -1);
}

#[test]
fn profiles_are_read_before_the_products() {
    let mut scan = scan_firewall(Platform::Windows);
    assert_eq!(scan.query(), FIREWALL_QUERY);
    let mut script = policy_read();
    script.extend([(Event::Granted, true), (Event::Granted, true), (Event::Granted, true)]);
    product_row(&mut script, "Third Party Wall", 0x41000);
    script.push((Event::Fetched(0, false), false));
    for _ in 0..5 {
        script.push((Event::Released, false));
    }
    let (actions, opened, closed) = play(&mut scan, script);
    let mut expected = vec![Action::Acquire(Resource::Session), Action::Acquire(Resource::Policy)];
    for profile in [Profile::Public, Profile::Private, Profile::Domain] {
        for setting in [
            Setting::Enabled,
            Setting::InboundAction,
            Setting::OutboundAction,
            Setting::NotificationsDisabled,
        ] {
            expected.push(Action::Read(Field::Firewall(profile, setting)));
        }
    }
    expected.extend([
        Action::Acquire(Resource::Locator),
        Action::Acquire(Resource::Services),
        Action::Acquire(Resource::Enumerator),
        Action::Acquire(Resource::Object),
        Action::Acquire(Resource::Value(Property::DisplayName)),
        Action::Release(Resource::Value(Property::DisplayName)),
        Action::Acquire(Resource::Value(Property::ProductState)),
        Action::Release(Resource::Value(Property::ProductState)),
        Action::Release(Resource::Object),
        Action::Acquire(Resource::Object),
        Action::Release(Resource::Enumerator),
        Action::Release(Resource::Services),
        Action::Release(Resource::Locator),
        Action::Release(Resource::Policy),
        Action::Release(Resource::Session),
        Action::Finish,
    ]);
    assert_eq!(actions, expected);
    assert_eq!(opened, 8);
    assert_eq!(closed, 8);
    let (profiles, products, module) = scan.finish_firewall().unwrap();
    assert_eq!(profiles.public, details(true, true, false, false));
    assert_eq!(profiles.private, details(false, false, true, true));
    assert_eq!(profiles.domain, details(true, true, true, true));
    assert_eq!(products.len(), 1);
    assert_eq!(products[0].name, "Third Party Wall");
    assert_eq!(products[0].state, 0x41000);
    assert_eq!(module.namespace, "ROOT\\SecurityCenter2");
    assert_eq!(module.query, "Select displayName, productState FROM FirewallProduct");
}

#[test]
fn no_third_party_firewall_is_an_empty_list() {
    let mut scan = scan_firewall(Platform::Windows);
    let mut script = policy_read();
    script.extend([(Event::Granted, true), (Event::Granted, true), (Event::Granted, true)]);
    script.push((Event::Fetched(0, false), false));
    for _ in 0..5 {
        script.push((Event::Released, false));
    }
    let (actions, opened, closed) = play(&mut scan, script);
    assert_eq!(actions.last(), Some(&Action::Finish));
    assert_eq!(opened, closed);
    let (profiles, products, _) = scan.finish_firewall().unwrap();
    assert!(products.is_empty());
    assert!(profiles.any_enabled());
}

#[test]
fn a_policy_that_cannot_be_opened_closes_the_session() {
    let mut scan = scan_firewall(Platform::Windows);
    let script = vec![
        (Event::Status(S_OK), true),
        (Event::Failed(-2147023143), false),
        (Event::Released, false),
    ];
    let (actions, opened, closed) = play(&mut scan, script);
    assert_eq!(
        actions,
        vec![
            Action::Acquire(Resource::Session),
            Action::Acquire(Resource::Policy),
            Action::Release(Resource::Session),
            Action::Finish,
        ]
    );
    assert_eq!((opened, closed), (1, 1));
    assert_eq!(
        scan.finish_firewall().unwrap_err(),
        ScanError::Acquisition(Resource::Policy, -2147023143)
    );
}

#[test]
fn a_failed_profile_read_releases_policy_then_session() {
    let mut scan = scan_firewall(Platform::Windows);
    let mut script = vec![(Event::Status(S_OK), true), (Event::Granted, true)];
    script.extend(profile(true, 0, 0, false));
    script.push((Event::Flag(VARIANT_TRUE), false));
    script.push((Event::Failed(-2147024891), false));
    script.push((Event::Released, false));
    script.push((Event::Released, false));
    let (actions, opened, closed) = play(&mut scan, script);
    let tail: Vec<Action> = actions[actions.len() - 3..].to_vec();
    assert_eq!(
        tail,
        vec![
            Action::Release(Resource::Policy),
            Action::Release(Resource::Session),
            Action::Finish
        ]
    );
    assert_eq!((opened, closed), (2, 2));
    assert_eq!(
        scan.finish_firewall().unwrap_err(),
        ScanError::Query(Field::Firewall(Profile::Private, Setting::InboundAction), -2147024891)
    );
}

#[test]
fn a_setting_of_the_wrong_kind_is_a_protocol_error() {
    let mut scan = scan_firewall(Platform::Windows);
    let script = vec![
        (Event::Status(S_OK), true),
        (Event::Granted, true),
        (Event::Long(1), false),
    ];
    play(&mut scan, script);
    assert_eq!(
        scan.ledger().failure(),
        Some(ScanError::Protocol(Action::Read(Field::Firewall(
            Profile::Public,
            Setting::Enabled
        ))))
    );
}

#[test]
fn only_the_documented_true_counts_as_enabled() {
    let mut scan = scan_firewall(Platform::Windows);
    let script = vec![
        (Event::Status(S_OK), true),
        (Event::Granted, true),
        (Event::Flag(1), false),
        (Event::Long(2), false),
    ];
    play(&mut scan, script);
    assert!(!scan.profiles().public.profile_enabled);
    assert!(!scan.profiles().public.inbound_blocked);
}

#[test]
fn firewall_scan_is_refused_off_windows() {
    let scan = scan_firewall(Platform::Other);
    assert_eq!(scan.pending(), Action::Finish);
    assert_eq!(scan.finish_firewall().unwrap_err(), ScanError::NotWindows);
}

#[test]
fn protection_needs_one_enabled_profile_or_one_active_product() {
    let mut one_on = all_off();
    one_on.domain.profile_enabled = true;
    let inactive = vec![listed("Sleeping", 0x40000)];
    let active = vec![listed("Sleeping", 0x40000), listed("Awake", 0x41000)];
    assert!(!is_protected(&all_off(), &Vec::new()));
    assert!(!is_protected(&all_off(), &inactive));
    assert!(is_protected(&all_off(), &active));
    assert!(is_protected(&one_on, &Vec::new()));
    assert!(is_protected(&one_on, &inactive));
}

#[test]
fn active_products_are_counted_by_their_status_code() {
    assert_eq!(count_active(&Vec::new()), 0);
    let products = vec![
        listed("a", 0x1000),
        listed("b", 0x0000),
        listed("c", 0x2000),
        listed("d", 0x0FFF),
        listed("e", 0xF000),
    ];
    assert_eq!(count_active(&products), 3);
}

#[test]
fn settings_are_replaced_one_at_a_time() {
    let mut profiles = WindowsFirewallProfile::new();
    assert_eq!(profiles, all_off());
    assert!(!profiles.any_enabled());
    profiles.set(Profile::Private, Setting::OutboundAction, true);
    assert_eq!(profiles.private, details(false, false, true, false));
    assert_eq!(profiles.public, details(false, false, false, false));
    profiles.set(Profile::Public, Setting::Enabled, true);
    assert!(profiles.any_enabled());
    profiles.set(Profile::Public, Setting::Enabled, false);
    assert!(!profiles.any_enabled());
}
