use sysdefense::protocol::{AccountRecord, Action, Event, Field, Platform, Resource, ScanError};
use sysdefense::uas::{
    names_guest, scan_uas, summarize, AccountScan, Privilege, UserAccountInfo, UF_ACCOUNTDISABLE,
    USER_PRIV_ADMIN, USER_PRIV_GUEST, USER_PRIV_USER,
};

fn record(name: &str, privilege: u32, flags: u32) -> Event {
    Event::Account(AccountRecord { name: name.to_string(), privilege, flags })
}

fn account(name: &str, privilege: u32, flags: u32) -> UserAccountInfo {
    UserAccountInfo::from_record(AccountRecord { name: name.to_string(), privilege, flags })
}

fn drive(scan: &mut AccountScan, script: Vec<Event>) -> (Vec<Action>, usize, usize) {
    let mut actions = vec![scan.pending()];
    let mut opened = 0;
    let mut closed = 0;
    for event in script {
        assert_ne!(scan.pending(), Action::Finish, "the script is longer than the scan");
        if matches!(event, Event::Enumerated(0, _)) {
            opened += 1;
        }
        let action = scan.step(event);
        if let Action::Release(_) = action {
            closed += 1;
        }
        actions.push(action);
    }
    (actions, opened, closed)
}

#[test]
fn enabled_guest_and_disabled_administrator() {
    let mut scan = scan_uas(Platform::Windows);
    let script = vec![
        Event::Enumerated(0, 2),
        record("Guest", USER_PRIV_GUEST, 0x0201),
        record("Administrator", USER_PRIV_ADMIN, 0x0203),
        Event::Released,
    ];
    let (actions, opened, closed) = drive(&mut scan, script);
    assert_eq!(
        actions,
        vec![
            Action::Acquire(Resource::Buffer),
            Action::Read(Field::Account(0)),
            Action::Read(Field::Account(1)),
            Action::Release(Resource::Buffer),
            Action::Finish,
        ]
    );
    assert_eq!((opened, closed), (1, 1));
    let summary = scan.finish().unwrap();
    assert!(summary.guest_enabled);
    assert_eq!(summary.admin_count, 1);
    assert_eq!(summary.enabled_users, 1);
    assert_eq!(summary.total_users, 2);
    assert_eq!(summary.accounts.len(), 2);
    assert_eq!(summary.accounts[0].username, "Guest");
    assert_eq!(summary.accounts[0].privilege, Privilege::Guest);
    assert!(summary.accounts[0].is_enabled);
    assert!(!summary.accounts[0].is_admin);
    assert_eq!(summary.accounts[1].username, "Administrator");
    assert_eq!(summary.accounts[1].privilege, Privilege::Administrator);
    assert!(!summary.accounts[1].is_enabled);
    assert!(summary.accounts[1].is_admin);
}

#[test]
fn no_accounts_is_an_empty_summary() {
    let mut scan = scan_uas(Platform::Windows);
    let (actions, opened, closed) = drive(&mut scan, vec![Event::Enumerated(0, 0), Event::Released]);
    assert_eq!(
        actions,
        vec![
            Action::Acquire(Resource::Buffer),
            Action::Release(Resource::Buffer),
            Action::Finish
        ]
    );
    assert_eq!((opened, closed), (1, 1));
    let summary = scan.finish().unwrap();
    assert_eq!(summary.total_users, 0);
    assert_eq!(summary.enabled_users, 0);
    assert_eq!(summary.admin_count, 0);
    assert!(!summary.guest_enabled);
    assert!(summary.accounts.is_empty());
}

#[test]
fn a_failed_enumeration_hands_out_no_buffer() {
    let mut scan = scan_uas(Platform::Windows);
    let (actions, opened, closed) = drive(&mut scan, vec![Event::Enumerated(5, 0)]);
    assert_eq!(actions, vec![Action::Acquire(Resource::Buffer), Action::Finish]);
    assert_eq!((opened, closed), (0, 0));
    assert_eq!(scan.finish().unwrap_err(), ScanError::Acquisition(Resource::Buffer, 5));
}

#[test]
fn a_record_that_cannot_be_read_frees_the_buffer() {
    let mut scan = scan_uas(Platform::Windows);
    let script = vec![
        Event::Enumerated(0, 3),
        record("alice", USER_PRIV_USER, 0),
        Event::Failed(-2147024883),
        Event::Released,
    ];
    let (actions, opened, closed) = drive(&mut scan, script);
    assert_eq!(
        actions,
        vec![
            Action::Acquire(Resource::Buffer),
            Action::Read(Field::Account(0)),
            Action::Read(Field::Account(1)),
            Action::Release(Resource::Buffer),
            Action::Finish,
        ]
    );
    assert_eq!((opened, closed), (1, 1));
    assert_eq!(scan.finish().unwrap_err(), ScanError::Query(Field::Account(1), -2147024883));
}

#[test]
fn account_scan_is_refused_off_windows() {
    let scan = scan_uas(Platform::Other);
    assert_eq!(scan.pending(), Action::Finish);
    assert_eq!(scan.finish().unwrap_err(), ScanError::NotWindows);
}

#[test]
fn privilege_levels_are_classified() {
    assert_eq!(account("a", USER_PRIV_ADMIN, 0).privilege, Privilege::Administrator);
    assert_eq!(account("a", USER_PRIV_USER, 0).privilege, Privilege::StandardUser);
    assert_eq!(account("a", USER_PRIV_GUEST, 0).privilege, Privilege::Guest);
    assert_eq!(account("a", 3, 0).privilege, Privilege::Unknown);
    assert_eq!(account("a", u32::MAX, 0).privilege, Privilege::Unknown);
    assert!(account("a", 2, 0).is_admin);
    assert!(!account("a", 1, 0).is_admin);
    assert!(!account("a", 3, 0).is_admin);
}

#[test]
fn privilege_labels() {
    assert_eq!(Privilege::Administrator.label(), "Administrator");
    assert_eq!(Privilege::StandardUser.label(), "Standard User");
    assert_eq!(Privilege::Guest.label(), "Guest");
    assert_eq!(Privilege::Unknown.label(), "Unknown");
}

#[test]
fn only_the_disable_bit_disables() {
    assert_eq!(UF_ACCOUNTDISABLE, 2);
    assert!(account("a", 1, 0).is_enabled);
    assert!(account("a", 1, 0x0201).is_enabled);
    assert!(account("a", 1, !2u32).is_enabled);
    assert!(!account("a", 1, 2).is_enabled);
    assert!(!account("a", 1, 0x0203).is_enabled);
    assert!(!account("a", 1, u32::MAX).is_enabled);
}

#[test]
fn guest_name_is_matched_without_regard_to_case() {
    for name in ["guest", "Guest", "GUEST", "gUeSt", "GUESt"] {
        assert!(names_guest(name), "{name}");
    }
    for name in ["", "gues", "guests", " guest", "guest ", "guesT1", "gu\u{00E9}st", "quest", "g\u{0075}\u{0301}est", "\u{FF47}uest"] {
        assert!(!names_guest(name), "{name}");
    }
}

#[test]
fn disabled_guest_is_no_risk() {
    let summary = summarize(
        vec![account("Guest", USER_PRIV_GUEST, UF_ACCOUNTDISABLE), account("bob", USER_PRIV_USER, 0)],
        2,
    );
    assert!(!summary.guest_enabled);
    assert_eq!(summary.enabled_users, 1);
    assert_eq!(summary.admin_count, 0);
}

#[test]
fn no_guest_account_is_no_risk() {
    let summary = summarize(
        vec![account("alice", USER_PRIV_ADMIN, 0), account("visitor", USER_PRIV_GUEST, 0)],
        2,
    );
    assert!(!summary.guest_enabled);
    assert_eq!(summary.enabled_users, 2);
    assert_eq!(summary.admin_count, 1);
}

#[test]
fn guest_risk_goes_by_the_name_not_the_privilege() {
    let summary = summarize(vec![account("GUEST", USER_PRIV_ADMIN, 0)], 1);
    assert!(summary.guest_enabled);
    assert_eq!(summary.admin_count, 1);
    let later = summarize(
        vec![
            account("a", USER_PRIV_USER, 2),
            account("Guest", USER_PRIV_GUEST, 2),
            account("guest", USER_PRIV_GUEST, 0),
            account("b", USER_PRIV_ADMIN, 2),
            account("c", USER_PRIV_ADMIN, 0),
        ],
        5,
    );
    assert!(later.guest_enabled);
    assert_eq!(later.enabled_users, 2);
    assert_eq!(later.admin_count, 2);
    assert_eq!(later.total_users, 5);
    assert_eq!(later.accounts.len(), 5);
}
