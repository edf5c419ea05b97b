use live_status::device_manager::DeviceTracker;
use live_status::filter::filter_rule::compile_rules;
use live_status::filter::filter_rule::FilterRule;
use live_status::status::Status;

fn rules(pairs: &[(&str, &str)]) -> Vec<FilterRule> {
    let raw: Vec<FilterRule> = pairs
        .iter()
        .map(|(pattern, replacement)| FilterRule::new(pattern.to_string(), replacement.to_string()))
        .collect();
    compile_rules(&raw).expect("the patterns compile")
}

fn secret_report() -> Status {
    Status::with_forced_status(
        "secret-42 window".to_string(),
        "Notes".to_string(),
        "mac".to_string(),
        "N/A".to_string(),
    )
}

#[test]
fn end_to_end_report_is_redacted_then_served_while_fresh() {
    let mut tracker = DeviceTracker::new(20, rules(&[("secret-\\d+", "REDACTED")]));
    let stored = tracker.update_status(&secret_report(), 0);
    assert_eq!(stored.title, "REDACTED window");

    let fresh = tracker.get_active_statuses(5_000);
    assert_eq!(fresh.len(), 1);
    assert_eq!(fresh[0].title, "REDACTED window");
    assert_eq!(fresh[0].app_name, "Notes");
    assert_eq!(fresh[0].os_name, "mac");
    assert_eq!(fresh[0].force_status_type, "N/A");

    let stale = tracker.get_active_statuses(25_000);
    assert!(stale.is_empty());
}

#[test]
fn end_to_end_single_slot_serves_offline_when_stale() {
    let mut tracker = DeviceTracker::new(20, rules(&[("secret-\\d+", "REDACTED")]));
    tracker.update_status(&secret_report(), 0);

    let fresh = tracker.get_device_status("mac", 5_000);
    assert_eq!(fresh.title, "REDACTED window");
    assert_eq!(fresh.app_name, "Notes");
    assert_eq!(fresh.os_name, "mac");

    let stale = tracker.get_device_status("mac", 25_000);
    assert_eq!(stale.title, "Client is currently offline.");
    assert_eq!(stale.app_name, "Offline");
    assert_eq!(stale.os_name, "Offline");
    assert_eq!(stale.force_status_type, "N/A");
}

#[test]
fn single_slot_serves_offline_for_a_device_never_heard_of() {
    let tracker = DeviceTracker::new(20, Vec::new());
    let status = tracker.get_device_status("mac", 0);
    assert_eq!(status.title, "Client is currently offline.");
    assert_eq!(status.os_name, "Offline");
}

#[test]
fn timeout_is_given_in_seconds_and_applied_in_milliseconds() {
    let mut tracker = DeviceTracker::new(20, Vec::new());
    assert_eq!(tracker.timeout_ms(), 20_000);
    tracker.update_status(&secret_report(), 1_000);
    assert_eq!(tracker.get_active_statuses(21_000).len(), 1);
    assert_eq!(tracker.get_active_statuses(21_001).len(), 0);
    assert_eq!(tracker.get_device_status("mac", 21_000).title, "secret-42 window");
    assert_eq!(tracker.get_device_status("mac", 21_001).title, "Client is currently offline.");
}

#[test]
fn largest_timeout_does_not_overflow() {
    let mut tracker = DeviceTracker::new(u64::MAX, Vec::new());
    assert_eq!(tracker.timeout_ms(), (u64::MAX as u128) * 1000);
    tracker.update_status(&secret_report(), 0);
    assert_eq!(tracker.get_active_statuses((u64::MAX as u128) * 1000).len(), 1);
    assert_eq!(tracker.get_active_statuses((u64::MAX as u128) * 1000 + 1).len(), 0);
}

#[test]
fn zero_timeout_serves_the_instant_of_the_report_only() {
    let mut tracker = DeviceTracker::new(0, Vec::new());
    tracker.update_status(&secret_report(), 7);
    assert_eq!(tracker.get_active_statuses(7).len(), 1);
    assert_eq!(tracker.get_active_statuses(8).len(), 0);
    assert_eq!(tracker.get_active_statuses(6).len(), 1);
}

#[test]
fn reports_are_stored_under_the_redacted_device_name() {
    let mut tracker = DeviceTracker::new(20, rules(&[("-laptop$", "")]));
    tracker.update_status(
        &Status::with_os("a".to_string(), "b".to_string(), "alice-laptop".to_string()),
        0,
    );
    assert_eq!(tracker.get_device_status("alice", 0).title, "a");
    assert_eq!(tracker.get_device_status("alice-laptop", 0).title, "Client is currently offline.");
    tracker.update_status(&Status::with_os("c".to_string(), "d".to_string(), "alice".to_string()), 1);
    let all = tracker.get_active_statuses(1);
    assert_eq!(all.len(), 1);
    assert_eq!(all[0].title, "c");
    assert_eq!(all[0].os_name, "alice");
}

#[test]
fn override_tag_is_stored_unredacted() {
    let mut tracker = DeviceTracker::new(20, rules(&[("offline", "hidden")]));
    tracker.update_status(
        &Status::with_forced_status(
            "offline work".to_string(),
            "offline app".to_string(),
            "linux".to_string(),
            "offline".to_string(),
        ),
        0,
    );
    let all = tracker.get_active_statuses(0);
    assert_eq!(all.len(), 1);
    assert_eq!(all[0].title, "hidden work");
    assert_eq!(all[0].app_name, "hidden app");
    assert_eq!(all[0].force_status_type, "offline");
}

#[test]
fn later_report_overwrites_the_whole_record() {
    let mut tracker = DeviceTracker::new(20, Vec::new());
    tracker.update_status(&Status::with_os("A".to_string(), "N/A".to_string(), "linux".to_string()), 0);
    tracker.update_status(&Status::with_os("B".to_string(), "X".to_string(), "linux".to_string()), 1);
    let all = tracker.get_active_statuses(1);
    assert_eq!(all.len(), 1);
    assert_eq!(all[0].title, "B");
    assert_eq!(all[0].app_name, "X");
}

#[test]
fn concurrent_reports_of_different_devices_are_both_kept() {
    let tracker = std::sync::Arc::new(tokio::sync::Mutex::new(DeviceTracker::new(20, Vec::new())));
    let runtime = tokio::runtime::Builder::new_multi_thread()
        .worker_threads(4)
        .build()
        .expect("a runtime can be built");
    runtime.block_on(async {
        let mut tasks = Vec::new();
        for device in 0..16u32 {
            let tracker = tracker.clone();
            tasks.push(tokio::spawn(async move {
                for round in 0..50u128 {
                    let status = Status::with_os(
                        format!("round {}", round),
                        "app".to_string(),
                        format!("device-{}", device),
                    );
                    tracker.lock().await.update_status(&status, round);
                }
            }));
        }
        for task in tasks {
            task.await.expect("no task fails");
        }
        let mut all = tracker.lock().await.get_active_statuses(49);
        all.sort_by(|a, b| a.os_name.cmp(&b.os_name));
        assert_eq!(all.len(), 16);
        for status in &all {
            assert_eq!(status.title, "round 49");
            assert_eq!(status.app_name, "app");
        }
        let mut names: Vec<String> = all.into_iter().map(|s| s.os_name).collect();
        names.dedup();
        assert_eq!(names.len(), 16);
    });
}
