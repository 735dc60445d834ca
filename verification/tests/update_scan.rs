use sysdefense::protocol::{
    Action, Bound, Event, Field, Platform, Resource, ScanError, UpdateText,
};
use sysdefense::session::{E_INVALIDARG, S_OK};
use sysdefense::updates::{
    category_kind, class_label, classify, scan_updates, CategoryKind, ClassCounts, Classification,
    UpdateScan, CRITICAL_UPDATES_GUID, DEFINITION_UPDATES_GUID, DRIVER_UPDATES_GUID,
    FEATURE_UPDATES_GUID, SEARCH_CRITERIA, SECURITY_UPDATES_GUID,
};

fn perform(scan: &mut UpdateScan, script: Vec<(Event, bool)>) -> (Vec<Action>, usize, usize) {
    let mut actions = vec![scan.pending()];
    let mut opened = 0;
    let mut closed = 0;
    for (event, grants) in script {
        assert_ne!(scan.pending(), Action::Finish, "the script is longer than the scan");
        if grants {
            opened += 1;
        }
        let action = scan.step(event);
        if let Action::Release(_) = action {
            closed += 1;
        }
        actions.push(action);
    }
    (actions, opened, closed)
}

fn text(value: &str) -> (Event, bool) {
    (Event::Text(value.to_string()), false)
}

fn got() -> (Event, bool) {
    (Event::Granted, true)
}

fn gone() -> (Event, bool) {
    (Event::Released, false)
}

fn searched(count: i32) -> Vec<(Event, bool)> {
    vec![(Event::Status(S_OK), true), got(), got(), got(), got(), (Event::Count(count), false)]
}

fn classification(script: &mut Vec<(Event, bool)>, name: &str, id: &str) {
    script.push(got());
    script.push(text("UpdateClassification"));
    script.push(text(name));
    script.push(text(id));
    script.push(gone());
}

fn product(script: &mut Vec<(Event, bool)>, name: &str) {
    script.push(got());
    script.push(text("Product"));
    script.push(text(name));
    script.push(gone());
}

fn open_update(script: &mut Vec<(Event, bool)>, title: &str, min: u64, max: u64, categories: i32) {
    script.push(got());
    script.push((Event::Decimal(0, min), false));
    script.push((Event::Decimal(0, max), false));
    script.push(text(title));
    script.push(got());
    script.push((Event::Count(categories), false));
}

fn close_update(script: &mut Vec<(Event, bool)>, description: &str) {
    script.push(text(description));
    script.push(gone());
    script.push(gone());
}

fn wind_down(script: &mut Vec<(Event, bool)>) {
    for _ in 0..5 {
        script.push(gone());
    }
}

#[test]
fn the_search_filter_is_fixed() {
    assert_eq!(SEARCH_CRITERIA, "IsInstalled=0");
}

#[test]
fn known_identifiers_resolve_to_their_class() {
    assert_eq!(classify(&CRITICAL_UPDATES_GUID.to_string()), Classification::Critical);
    assert_eq!(classify(&SECURITY_UPDATES_GUID.to_string()), Classification::Security);
    assert_eq!(classify(&DEFINITION_UPDATES_GUID.to_string()), Classification::Definition);
    assert_eq!(classify(&FEATURE_UPDATES_GUID.to_string()), Classification::Feature);
    assert_eq!(classify(&DRIVER_UPDATES_GUID.to_string()), Classification::Driver);
    assert_eq!(
        classify(&"e6cf1350-c01b-414d-a61f-263d14d133b4".to_string()),
        Classification::Critical
    );
    assert_eq!(
        classify(&"0fa1201d-4330-4fa8-8ae9-b877473b6441".to_string()),
        Classification::Security
    );
}

#[test]
fn every_other_identifier_is_other() {
    assert_eq!(classify(&String::new()), Classification::Other);
    assert_eq!(
        classify(&"E6CF1350-C01B-414D-A61F-263D14D133B4".to_string()),
        Classification::Other
    );
    assert_eq!(
        classify(&"28bc880e-0592-4cbf-8f95-c79b17911d5f".to_string()),
        Classification::Other
    );
    assert_eq!(
        classify(&"e6cf1350-c01b-414d-a61f-263d14d133b4 ".to_string()),
        Classification::Other
    );
}

#[test]
fn category_types_are_told_apart() {
    assert_eq!(category_kind(&"UpdateClassification".to_string()), CategoryKind::Classification);
    assert_eq!(category_kind(&"Product".to_string()), CategoryKind::Product);
    assert_eq!(category_kind(&"ProductFamily".to_string()), CategoryKind::Other);
    assert_eq!(category_kind(&"Company".to_string()), CategoryKind::Other);
    assert_eq!(category_kind(&"product".to_string()), CategoryKind::Other);
}

#[test]
fn known_classes_have_fixed_labels() {
    let name = || "as reported".to_string();
    assert_eq!(class_label(Classification::Critical, name()), "Critical Updates");
    assert_eq!(class_label(Classification::Security, name()), "Security Updates");
    assert_eq!(class_label(Classification::Definition, name()), "Definition Updates");
    assert_eq!(class_label(Classification::Feature, name()), "Feature Packs");
    assert_eq!(class_label(Classification::Driver, name()), "Drivers");
    assert_eq!(class_label(Classification::Other, name()), "as reported");
}

#[test]
fn counts_go_up_one_class_at_a_time() {
    let mut counts = ClassCounts::new();
    counts.count(Classification::Security);
    counts.count(Classification::Security);
    counts.count(Classification::Other);
    counts.count(Classification::Driver);
    assert_eq!(
        counts,
        ClassCounts {
            critical_count: 0,
            security_count: 2,
            definition_count: 0,
            feature_count: 0,
            driver_count: 1,
            other_count: 1,
        }
    );
}

#[test]
fn counts_stop_at_their_ceiling() {
    let mut counts = ClassCounts::new();
    counts.feature_count = i32::MAX - 1;
    counts.count(Classification::Feature);
    assert_eq!(counts.feature_count, i32::MAX);
    counts.count(Classification::Feature);
    assert_eq!(counts.feature_count, i32::MAX);
}

#[test]
fn nothing_pending_is_an_empty_summary() {
    let mut scan = scan_updates(Platform::Windows);
    let mut script = searched(0);
    wind_down(&mut script);
    let (actions, opened, closed) = perform(&mut scan, script);
    assert_eq!(
        actions,
        vec![
            Action::Acquire(Resource::Session),
            Action::Acquire(Resource::UpdateSession),
            Action::Acquire(Resource::Searcher),
            Action::Acquire(Resource::SearchResult),
            Action::Acquire(Resource::Updates),
            Action::Read(Field::UpdateCount),
            Action::Release(Resource::Updates),
            Action::Release(Resource::SearchResult),
            Action::Release(Resource::Searcher),
            Action::Release(Resource::UpdateSession),
            Action::Release(Resource::Session),
            Action::Finish,
        ]
    );
    assert_eq!((opened, closed), (5, 5));
    let summary = scan.finish().unwrap();
    assert_eq!(summary.total_count, 0);
    assert_eq!(summary.counts(), ClassCounts::new());
    assert!(summary.update_list.is_empty());
    assert_eq!(summary.query, "IsInstalled=0");
}

#[test]
fn one_update_is_read_category_by_category() {
    let mut scan = scan_updates(Platform::Windows);
    let mut script = searched(1);
    open_update(&mut script, "Security Intelligence Update", 1048576, 1610612736, 3);
    product(&mut script, "Microsoft Defender Antivirus");
    script.push(got());
    script.push(text("ProductFamily"));
    script.push(gone());
    classification(&mut script, "Definition Updates", DEFINITION_UPDATES_GUID);
    close_update(&mut script, "Install this update to revise the files.");
    wind_down(&mut script);
    let (actions, opened, closed) = perform(&mut scan, script);
    assert_eq!(
        actions,
        vec![
            Action::Acquire(Resource::Session),
            Action::Acquire(Resource::UpdateSession),
            Action::Acquire(Resource::Searcher),
            Action::Acquire(Resource::SearchResult),
            Action::Acquire(Resource::Updates),
            Action::Read(Field::UpdateCount),
            Action::AcquireItem(Resource::Update, 0),
            Action::Read(Field::DownloadSize(Bound::Min)),
            Action::Read(Field::DownloadSize(Bound::Max)),
            Action::Read(Field::Text(UpdateText::Title)),
            Action::Acquire(Resource::Categories),
            Action::Read(Field::CategoryCount),
            Action::AcquireItem(Resource::Category, 0),
            Action::Read(Field::Text(UpdateText::CategoryType)),
            Action::Read(Field::Text(UpdateText::CategoryName)),
            Action::Release(Resource::Category),
            Action::AcquireItem(Resource::Category, 1),
            Action::Read(Field::Text(UpdateText::CategoryType)),
            Action::Release(Resource::Category),
            Action::AcquireItem(Resource::Category, 2),
            Action::Read(Field::Text(UpdateText::CategoryType)),
            Action::Read(Field::Text(UpdateText::CategoryName)),
            Action::Read(Field::Text(UpdateText::CategoryId)),
            Action::Release(Resource::Category),
            Action::Read(Field::Text(UpdateText::Description)),
            Action::Release(Resource::Categories),
            Action::Release(Resource::Update),
            Action::Release(Resource::Updates),
            Action::Release(Resource::SearchResult),
            Action::Release(Resource::Searcher),
            Action::Release(Resource::UpdateSession),
            Action::Release(Resource::Session),
            Action::Finish,
        ]
    );
    assert_eq!(opened, 10);
    assert_eq!(closed, 10);
    let summary = scan.finish().unwrap();
    assert_eq!(summary.total_count, 1);
    assert_eq!(summary.definition_count, 1);
    assert_eq!(summary.update_list.len(), 1);
    let update = &summary.update_list[0];
    assert_eq!(update.title, "Security Intelligence Update");
    assert_eq!(update.classification, "Definition Updates");
    assert_eq!(update.product, "Microsoft Defender Antivirus");
    assert_eq!(update.description, "Install this update to revise the files.");
    assert_eq!(update.min_bytes, 1048576);
    assert_eq!(update.max_bytes, 1610612736);
}

#[test]
fn an_unclassified_update_is_counted_but_not_listed() {
    let mut scan = scan_updates(Platform::Windows);
    let mut script = searched(3);
    open_update(&mut script, "First", 10, 20, 2);
    classification(&mut script, "Security Updates", SECURITY_UPDATES_GUID);
    product(&mut script, "Windows 11");
    close_update(&mut script, "one");
    open_update(&mut script, "Second", 30, 40, 1);
    product(&mut script, "Windows 11");
    close_update(&mut script, "two");
    open_update(&mut script, "Third", 50, 60, 2);
    product(&mut script, "Drivers Inc");
    classification(&mut script, "Whatever", DRIVER_UPDATES_GUID);
    close_update(&mut script, "three");
    wind_down(&mut script);
    let (actions, opened, closed) = perform(&mut scan, script);
    assert_eq!(actions.last(), Some(&Action::Finish));
    assert_eq!(opened, closed);
    let summary = scan.finish().unwrap();
    assert_eq!(summary.total_count, 3);
    assert_eq!(summary.update_list.len(), 2);
    assert_eq!(summary.update_list[0].title, "First");
    assert_eq!(summary.update_list[0].classification, "Security Updates");
    assert_eq!(summary.update_list[1].title, "Third");
    assert_eq!(summary.update_list[1].classification, "Drivers");
    assert_eq!(summary.update_list[1].product, "Drivers Inc");
    assert_eq!(summary.update_list[1].min_bytes, 50);
    assert_eq!(
        summary.counts(),
        ClassCounts {
            critical_count: 0,
            security_count: 1,
            definition_count: 0,
            feature_count: 0,
            driver_count: 1,
            other_count: 0,
        }
    );
}

#[test]
fn an_update_without_a_product_is_counted_by_class_but_not_listed() {
    let mut scan = scan_updates(Platform::Windows);
    let mut script = searched(1);
    open_update(&mut script, "Orphan", 1, 2, 1);
    classification(&mut script, "Critical Updates", CRITICAL_UPDATES_GUID);
    close_update(&mut script, "no product");
    wind_down(&mut script);
    perform(&mut scan, script);
    let summary = scan.finish().unwrap();
    assert_eq!(summary.total_count, 1);
    assert!(summary.update_list.is_empty());
    assert_eq!(summary.critical_count, 1);
}

#[test]
fn an_unknown_class_keeps_the_name_it_came_with() {
    let mut scan = scan_updates(Platform::Windows);
    let mut script = searched(1);
    open_update(&mut script, "Tooling", 1, 2, 2);
    classification(&mut script, "Update Rollups", "28bc880e-0592-4cbf-8f95-c79b17911d5f");
    product(&mut script, "Windows 11");
    close_update(&mut script, "rollup");
    wind_down(&mut script);
    perform(&mut scan, script);
    let summary = scan.finish().unwrap();
    assert_eq!(summary.update_list.len(), 1);
    assert_eq!(summary.update_list[0].classification, "Update Rollups");
    assert_eq!(summary.other_count, 1);
}

#[test]
fn a_draft_does_not_leak_into_the_next_update() {
    let mut scan = scan_updates(Platform::Windows);
    let mut script = searched(2);
    open_update(&mut script, "Complete", 1, 2, 2);
    classification(&mut script, "Feature Packs", FEATURE_UPDATES_GUID);
    product(&mut script, "Windows 11");
    close_update(&mut script, "complete");
    open_update(&mut script, "Bare", 3, 4, 0);
    close_update(&mut script, "bare");
    wind_down(&mut script);
    perform(&mut scan, script);
    let summary = scan.finish().unwrap();
    assert_eq!(summary.total_count, 2);
    assert_eq!(summary.update_list.len(), 1);
    assert_eq!(summary.update_list[0].title, "Complete");
    assert_eq!(summary.feature_count, 1);
}

#[test]
fn sizes_wider_than_64_bits_are_joined() {
    let mut scan = scan_updates(Platform::Windows);
    let mut script = searched(1);
    script.push(got());
    script.push((Event::Decimal(1, 5), false));
    script.push((Event::Decimal(u32::MAX, u64::MAX), false));
    script.push(text("Huge"));
    script.push(got());
    script.push((Event::Count(2), false));
    classification(&mut script, "Drivers", DRIVER_UPDATES_GUID);
    product(&mut script, "Device");
    close_update(&mut script, "huge");
    wind_down(&mut script);
    perform(&mut scan, script);
    let summary = scan.finish().unwrap();
    assert_eq!(summary.update_list[0].min_bytes, (1u128 << 64) + 5);
    assert_eq!(summary.update_list[0].max_bytes, (1u128 << 96) - 1);
}

#[test]
fn a_failed_search_is_surfaced_once_and_everything_released() {
    let mut scan = scan_updates(Platform::Windows);
    let script = vec![
        (Event::Status(S_OK), true),
        got(),
        got(),
        (Event::Failed(-2145107924), false),
        gone(),
        gone(),
        gone(),
    ];
    let (actions, opened, closed) = perform(&mut scan, script);
    assert_eq!(
        actions,
        vec![
            Action::Acquire(Resource::Session),
            Action::Acquire(Resource::UpdateSession),
            Action::Acquire(Resource::Searcher),
            Action::Acquire(Resource::SearchResult),
            Action::Release(Resource::Searcher),
            Action::Release(Resource::UpdateSession),
            Action::Release(Resource::Session),
            Action::Finish,
        ]
    );
    assert_eq!((opened, closed), (3, 3));
    assert_eq!(
        scan.finish().unwrap_err(),
        ScanError::Acquisition(Resource::SearchResult, -2145107924)
    );
}

#[test]
fn a_failure_inside_a_category_unwinds_all_eight_levels() {
    let mut scan = scan_updates(Platform::Windows);
    let mut script = searched(2);
    open_update(&mut script, "Broken", 1, 2, 1);
    script.push(got());
    script.push(text("UpdateClassification"));
    script.push((Event::Failed(E_INVALIDARG), false));
    for _ in 0..8 {
        script.push(gone());
    }
    let (actions, opened, closed) = perform(&mut scan, script);
    let tail: Vec<Action> = actions[actions.len() - 9..].to_vec();
    assert_eq!(
        tail,
        vec![
            Action::Release(Resource::Category),
            Action::Release(Resource::Categories),
            Action::Release(Resource::Update),
            Action::Release(Resource::Updates),
            Action::Release(Resource::SearchResult),
            Action::Release(Resource::Searcher),
            Action::Release(Resource::UpdateSession),
            Action::Release(Resource::Session),
            Action::Finish,
        ]
    );
    assert_eq!((opened, closed), (8, 8));
    assert_eq!(
        scan.finish().unwrap_err(),
        ScanError::Query(Field::Text(UpdateText::CategoryName), E_INVALIDARG)
    );
}

#[test]
fn a_negative_count_means_no_updates() {
    let mut scan = scan_updates(Platform::Windows);
    let mut script = searched(-1);
    wind_down(&mut script);
    let (actions, opened, closed) = perform(&mut scan, script);
    assert_eq!(actions.last(), Some(&Action::Finish));
    assert_eq!(opened, closed);
    let summary = scan.finish().unwrap();
    assert_eq!(summary.total_count, -1);
    assert!(summary.update_list.is_empty());
}

#[test]
fn update_scan_is_refused_off_windows() {
    let scan = scan_updates(Platform::Other);
    assert_eq!(scan.pending(), Action::Finish);
    assert!(scan.ledger().held().is_empty());
    assert_eq!(scan.finish().unwrap_err(), ScanError::NotWindows);
}
