use sysdefense::antivirus::{
    assess_antivirus, count_with_status, AntivirusVerdict, ProductInfo,
};
use sysdefense::firewall::{
    assess_firewall, firewall_enabled, firewall_inbound, firewall_notifications,
    firewall_outbound, ActiveFirewall, BuiltInVerdict, FirewallAssessment, FirewallProfileDetails,
    WindowsFirewallProfile,
};
use sysdefense::status::{
    decode, definition_field, state_definition_decode, state_owner_decode, state_status_decode,
    third_party_state, Activity, Owner,
};
use sysdefense::updates::{
    contains_ignoring_case, listed_as_other, listed_under, mentions_security, UpdateInfo,
};

fn named(name: &str, state: i32) -> ProductInfo {
    ProductInfo::new(name.to_string(), state)
}

fn labelled(classification: &str) -> UpdateInfo {
    UpdateInfo {
        title: "t".to_string(),
        classification: classification.to_string(),
        min_bytes: 0,
        max_bytes: 0,
        product: "p".to_string(),
        description: "d".to_string(),
    }
}

fn shape(enabled: bool, inbound: bool) -> FirewallProfileDetails {
    FirewallProfileDetails {
        profile_enabled: enabled,
        inbound_blocked: inbound,
        outbound_blocked: false,
        notifications_disabled: false,
    }
}

#[test]
fn activity_fields_have_names() {
    assert_eq!(state_status_decode(0), "Off");
    assert_eq!(state_status_decode(1), "On");
    assert_eq!(state_status_decode(2), "Snoozed");
    assert_eq!(state_status_decode(3), "Expired");
    assert_eq!(state_status_decode(4), "Unknown");
    assert_eq!(state_status_decode(-1), "Unknown");
}

#[test]
fn definition_fields_have_names() {
    assert_eq!(state_definition_decode(0), "Up-to-date");
    assert_eq!(state_definition_decode(1), "Out-of-date");
    assert_eq!(state_definition_decode(2), "Out-of-date");
    assert_eq!(state_definition_decode(16), "Out-of-date");
    assert_eq!(state_definition_decode(255), "Out-of-date");
    assert_eq!(state_definition_decode(256), "Unknown");
    assert_eq!(state_definition_decode(-1), "Unknown");
}

#[test]
fn definition_label_agrees_with_the_decoded_status() {
    for state in [0, 1, 0x10, 0x61100, 0x61110, 0x50010, 0x7FFF_FF00, -1, i32::MIN, 0xFF] {
        let expected = if decode(state).definitions_current { "Up-to-date" } else { "Out-of-date" };
        assert_eq!(state_definition_decode(definition_field(state)), expected, "{state}");
    }
}

#[test]
fn owner_fields_answer_the_third_party_question() {
    assert_eq!(state_owner_decode(0), "Yes");
    assert_eq!(state_owner_decode(1), "No");
    assert_eq!(state_owner_decode(2), "Unknown");
}

#[test]
fn third_party_firewalls_are_active_or_inactive() {
    assert_eq!(third_party_state(0x1000), "Active");
    assert_eq!(third_party_state(0x2000), "Active");
    assert_eq!(third_party_state(0xF000), "Active");
    assert_eq!(third_party_state(0x0FFF), "Inactive");
    assert_eq!(third_party_state(0x70000), "Inactive");
    assert_eq!(third_party_state(0), "Inactive");
    assert_eq!(third_party_state(-1), "Active");
}

#[test]
fn product_record_and_status_code_agree() {
    let product = named("Windows Defender", 397568);
    let status = product.status();
    assert!(status.is_active);
    assert!(status.is_realtime);
    assert!(status.definitions_current);
    assert_eq!(status.owner, Owner::Windows);
    assert_eq!(status.activity, Activity::On);
    assert_eq!(product.product_status, 1);
    let stale = named("Old", 0x50010).status();
    assert!(!stale.is_active);
    assert!(!stale.definitions_current);
}

#[test]
fn products_are_counted_by_activity_field() {
    let products = vec![
        named("a", 0x0000),
        named("b", 0x1000),
        named("c", 0x1010),
        named("d", 0x2000),
        named("e", 0x3000),
        named("f", 0x9000),
    ];
    assert_eq!(count_with_status(&products, 0), 1);
    assert_eq!(count_with_status(&products, 1), 2);
    assert_eq!(count_with_status(&products, 2), 1);
    assert_eq!(count_with_status(&products, 3), 1);
    assert_eq!(count_with_status(&products, 4), 0);
    assert_eq!(count_with_status(&Vec::new(), 1), 0);
}

#[test]
fn antivirus_verdict_goes_by_the_number_switched_on() {
    assert_eq!(assess_antivirus(&Vec::new()), AntivirusVerdict::Unprotected);
    assert_eq!(
        assess_antivirus(&vec![named("snoozed", 0x2000), named("off", 0)]),
        AntivirusVerdict::Unprotected
    );
    assert_eq!(
        assess_antivirus(&vec![named("on", 0x1000), named("off", 0)]),
        AntivirusVerdict::Protected
    );
    assert_eq!(
        assess_antivirus(&vec![named("on", 0x1000), named("also on", 0x61100)]),
        AntivirusVerdict::Conflicting
    );
}

#[test]
fn profile_settings_have_names() {
    let on = FirewallProfileDetails {
        profile_enabled: true,
        inbound_blocked: true,
        outbound_blocked: true,
        notifications_disabled: true,
    };
    let off = FirewallProfileDetails {
        profile_enabled: false,
        inbound_blocked: false,
        outbound_blocked: false,
        notifications_disabled: false,
    };
    assert_eq!(firewall_enabled(&on), "Enabled");
    assert_eq!(firewall_enabled(&off), "Disabled");
    assert_eq!(firewall_inbound(&on), "Blocked");
    assert_eq!(firewall_inbound(&off), "Allowed");
    assert_eq!(firewall_outbound(&on), "Blocked");
    assert_eq!(firewall_outbound(&off), "Allowed");
    assert_eq!(firewall_notifications(&on), "Off");
    assert_eq!(firewall_notifications(&off), "On");
}

#[test]
fn firewall_assessment_judges_each_source_and_both() {
    let dark = WindowsFirewallProfile {
        public: shape(false, false),
        private: shape(false, false),
        domain: shape(false, false),
    };
    assert_eq!(
        assess_firewall(&dark, &Vec::new()),
        FirewallAssessment {
            built_in: BuiltInVerdict::AllDisabled,
            public_inbound_open: false,
            active: ActiveFirewall::Nothing,
        }
    );
    assert_eq!(
        assess_firewall(&dark, &vec![named("wall", 0x1000), named("fence", 0x2000)]),
        FirewallAssessment {
            built_in: BuiltInVerdict::AllDisabled,
            public_inbound_open: false,
            active: ActiveFirewall::ThirdParty(2),
        }
    );
    let private_only = WindowsFirewallProfile { private: shape(true, true), ..dark };
    assert_eq!(
        assess_firewall(&private_only, &vec![named("asleep", 0)]),
        FirewallAssessment {
            built_in: BuiltInVerdict::PublicDisabled,
            public_inbound_open: false,
            active: ActiveFirewall::BuiltIn,
        }
    );
    let open_public = WindowsFirewallProfile { public: shape(true, false), ..dark };
    assert_eq!(
        assess_firewall(&open_public, &Vec::new()),
        FirewallAssessment {
            built_in: BuiltInVerdict::Enabled,
            public_inbound_open: true,
            active: ActiveFirewall::BuiltIn,
        }
    );
    let closed_public = WindowsFirewallProfile { public: shape(true, true), ..dark };
    assert!(!assess_firewall(&closed_public, &Vec::new()).public_inbound_open);
}

#[test]
fn updates_are_listed_under_their_label() {
    assert!(listed_under(&labelled("Critical Updates"), "Critical Updates"));
    assert!(!listed_under(&labelled("Critical Updates"), "Security Updates"));
    assert!(!listed_under(&labelled("critical updates"), "Critical Updates"));
    for label in
        ["Critical Updates", "Security Updates", "Definition Updates", "Feature Packs", "Drivers"]
    {
        assert!(!listed_as_other(&labelled(label)), "{label}");
    }
    assert!(listed_as_other(&labelled("Update Rollups")));
    assert!(listed_as_other(&labelled("")));
    assert!(listed_as_other(&labelled("drivers")));
}

#[test]
fn security_is_found_in_titles_whatever_the_case() {
    assert!(mentions_security("2024-05 Cumulative Security Update for Windows 11"));
    assert!(mentions_security("SECURITY INTELLIGENCE UPDATE"));
    assert!(mentions_security("security"));
    assert!(mentions_security("xsecurityx"));
    assert!(mentions_security("in\u{00E9}dit SeCuRiTy"));
    assert!(!mentions_security(""));
    assert!(!mentions_security("securit"));
    assert!(!mentions_security("Driver update for Realtek audio"));
    assert!(!mentions_security("secur ity"));
}

#[test]
fn search_ignores_case_in_the_text_only() {
    assert!(contains_ignoring_case("Hello World", "world"));
    assert!(contains_ignoring_case("Hello World", "hello"));
    assert!(contains_ignoring_case("Hello World", "o w"));
    assert!(contains_ignoring_case("anything", ""));
    assert!(contains_ignoring_case("", ""));
    assert!(!contains_ignoring_case("hello world", "World"));
    assert!(!contains_ignoring_case("short", "longer than the text"));
    assert!(!contains_ignoring_case("abc", "abd"));
    assert!(contains_ignoring_case("aab", "ab"));
    assert!(contains_ignoring_case("[TEST]", "[test]"));
    assert!(!contains_ignoring_case("@test`", "`test@"));
}
