use live_status::auth::authorize;
use live_status::auth::char_is_whitespace;
use live_status::auth::trim;
use live_status::device_manager::DeviceTracker;
use live_status::error::AuthorizationError;
use live_status::filter::filter_rule::compile_rules;
use live_status::filter::filter_rule::FilterRule;
use live_status::server::get_status;
use live_status::server::put_status;
use live_status::server::response_code;
use live_status::server::ServedStatus;
use live_status::status::Status;

fn report(title: &str, os_name: &str) -> Status {
    Status::with_os(title.to_string(), "app".to_string(), os_name.to_string())
}

fn served(tracker: &DeviceTracker, now: u128) -> Vec<(String, String)> {
    let statuses = match get_status(tracker, None, now) {
        ServedStatus::All(statuses) => statuses,
        ServedStatus::One(status) => panic!("expected the list, got {:?}", status),
    };
    let mut all: Vec<(String, String)> =
        statuses.into_iter().map(|s| (s.os_name, s.title)).collect();
    all.sort();
    all
}

#[test]
fn whitespace_is_what_std_calls_whitespace() {
    let mut code: u32 = 0;
    while code <= 0x10FFFF {
        if let Some(c) = char::from_u32(code) {
            assert_eq!(char_is_whitespace(c), c.is_whitespace(), "at U+{:04X}", code);
        }
        code += 1;
    }
}

#[test]
fn trim_agrees_with_std_trim() {
    for text in [
        "",
        " ",
        "   ",
        "a",
        " a",
        "a ",
        "  a b  ",
        "\t\r\n key \n",
        "\u{3000}wide\u{00A0}",
        "in ner",
        "\u{200B}zero-width\u{200B}",
        " \u{1680}\u{2000}\u{200A}\u{2028}\u{2029}\u{202F}\u{205F}x\u{0085}",
    ] {
        assert_eq!(trim(text), text.trim(), "for {:?}", text);
    }
    assert_eq!(trim("  a b  "), "a b");
    assert_eq!(trim("\u{200B}zero-width\u{200B}"), "\u{200B}zero-width\u{200B}");
}

#[test]
fn authorize_accepts_the_trimmed_secret() {
    assert_eq!(authorize(Some("hunter2"), "hunter2"), Ok(()));
    assert_eq!(authorize(Some("  hunter2\t"), "hunter2"), Ok(()));
    assert_eq!(authorize(Some(""), ""), Ok(()));
    assert_eq!(authorize(Some("   "), ""), Ok(()));
}

#[test]
fn authorize_rejects_a_wrong_credential() {
    assert_eq!(authorize(Some("hunter3"), "hunter2"), Err(AuthorizationError::WrongCredential));
    assert_eq!(authorize(Some("Hunter2"), "hunter2"), Err(AuthorizationError::WrongCredential));
    assert_eq!(authorize(Some("hunter2 x"), "hunter2"), Err(AuthorizationError::WrongCredential));
    assert_eq!(authorize(Some(""), "hunter2"), Err(AuthorizationError::WrongCredential));
}

#[test]
fn authorize_rejects_a_missing_credential() {
    assert_eq!(authorize(None, "hunter2"), Err(AuthorizationError::MissingCredential));
    assert_eq!(authorize(None, ""), Err(AuthorizationError::MissingCredential));
}

#[test]
fn the_secret_itself_is_not_trimmed() {
    assert_eq!(authorize(Some(" "), " "), Err(AuthorizationError::WrongCredential));
    assert_eq!(authorize(Some(" key "), " key "), Err(AuthorizationError::WrongCredential));
    assert_eq!(authorize(Some("key"), " key "), Err(AuthorizationError::WrongCredential));
}

#[test]
fn authorized_write_reaches_the_store() {
    let mut tracker = DeviceTracker::new(20, Vec::new());
    let response = put_status(&mut tracker, "hunter2", Some(" hunter2 "), &report("work", "linux"), 0);
    assert_eq!(response_code(&response), 200);
    let stored = response.expect("the credential is right");
    assert_eq!(stored.title, "work");
    assert_eq!(stored.os_name, "linux");
    assert_eq!(served(&tracker, 0), vec![("linux".to_string(), "work".to_string())]);
}

#[test]
fn unauthorized_write_never_changes_what_is_served() {
    let mut tracker = DeviceTracker::new(20, Vec::new());
    assert!(put_status(&mut tracker, "hunter2", Some("hunter2"), &report("work", "linux"), 0).is_ok());
    let before = served(&tracker, 10);

    let wrong = put_status(&mut tracker, "hunter2", Some("guess"), &report("forged", "linux"), 5);
    assert_eq!(response_code(&wrong), 401);
    assert_eq!(wrong.err(), Some(AuthorizationError::WrongCredential));
    assert_eq!(served(&tracker, 10), before);

    let missing = put_status(&mut tracker, "hunter2", None, &report("forged", "mac"), 5);
    assert_eq!(response_code(&missing), 401);
    assert_eq!(missing.err(), Some(AuthorizationError::MissingCredential));
    assert_eq!(served(&tracker, 10), before);

    assert_eq!(served(&tracker, 20_000), before);
    assert!(served(&tracker, 20_001).is_empty());
}

#[test]
fn unauthorized_write_to_an_empty_tracker_leaves_it_empty() {
    let mut tracker = DeviceTracker::new(20, Vec::new());
    assert!(put_status(&mut tracker, "hunter2", Some(""), &report("forged", "linux"), 0).is_err());
    assert!(served(&tracker, 0).is_empty());
}

#[test]
fn reads_need_no_credential_and_filter_by_freshness() {
    let mut tracker = DeviceTracker::new(1, Vec::new());
    assert!(put_status(&mut tracker, "k", Some("k"), &report("one", "linux"), 0).is_ok());
    assert!(put_status(&mut tracker, "k", Some("k"), &report("two", "mac"), 600).is_ok());
    assert_eq!(
        served(&tracker, 1_000),
        vec![("linux".to_string(), "one".to_string()), ("mac".to_string(), "two".to_string())]
    );
    assert_eq!(served(&tracker, 1_001), vec![("mac".to_string(), "two".to_string())]);
    assert!(served(&tracker, 1_601).is_empty());
}

#[test]
fn response_codes_are_200_and_401() {
    assert_eq!(response_code(&Ok(report("t", "o"))), 200);
    assert_eq!(response_code(&Err(AuthorizationError::MissingCredential)), 401);
    assert_eq!(response_code(&Err(AuthorizationError::WrongCredential)), 401);
}

#[test]
fn an_accepted_report_comes_back_as_stored() {
    let raw = vec![FilterRule::new("secret-\\d+".to_string(), "REDACTED".to_string())];
    let rules = compile_rules(&raw).expect("the pattern compiles");
    let mut tracker = DeviceTracker::new(20, rules);
    let stored = put_status(&mut tracker, "k", Some("k"), &report("secret-42 window", "mac"), 0)
        .expect("the credential is right");
    assert_eq!(stored.title, "REDACTED window");
    assert_eq!(stored.os_name, "mac");
    assert_eq!(served(&tracker, 0), vec![("mac".to_string(), "REDACTED window".to_string())]);
}

fn single(tracker: &DeviceTracker, device: &str, now: u128) -> Status {
    match get_status(tracker, Some(device), now) {
        ServedStatus::One(status) => status,
        ServedStatus::All(statuses) => panic!("expected one status, got {:?}", statuses),
    }
}

#[test]
fn single_slot_read_serves_the_device_while_fresh() {
    let mut tracker = DeviceTracker::new(20, Vec::new());
    assert!(put_status(&mut tracker, "k", Some("k"), &report("work", "mac"), 0).is_ok());
    let status = single(&tracker, "mac", 5_000);
    assert_eq!(status.title, "work");
    assert_eq!(status.app_name, "app");
    assert_eq!(status.os_name, "mac");
    assert_eq!(status.force_status_type, "N/A");
    assert_eq!(single(&tracker, "mac", 20_000).title, "work");
}

#[test]
fn single_slot_read_serves_offline_when_stale() {
    let mut tracker = DeviceTracker::new(20, Vec::new());
    assert!(put_status(&mut tracker, "k", Some("k"), &report("work", "mac"), 0).is_ok());
    let status = single(&tracker, "mac", 25_000);
    assert_eq!(status.title, "Client is currently offline.");
    assert_eq!(status.app_name, "Offline");
    assert_eq!(status.os_name, "Offline");
    assert_eq!(status.force_status_type, "N/A");
    assert_eq!(single(&tracker, "mac", 20_001).title, "Client is currently offline.");
}

#[test]
fn single_slot_read_serves_offline_when_nothing_was_reported() {
    let tracker = DeviceTracker::new(20, Vec::new());
    let status = single(&tracker, "mac", 0);
    assert_eq!(status.title, "Client is currently offline.");
    assert_eq!(status.app_name, "Offline");
    assert_eq!(status.os_name, "Offline");
    assert_eq!(status.force_status_type, "N/A");
}

#[test]
fn single_slot_read_ignores_other_devices() {
    let mut tracker = DeviceTracker::new(20, Vec::new());
    assert!(put_status(&mut tracker, "k", Some("k"), &report("elsewhere", "linux"), 0).is_ok());
    assert_eq!(single(&tracker, "mac", 0).title, "Client is currently offline.");
    assert_eq!(single(&tracker, "linux", 0).title, "elsewhere");
}

#[test]
fn a_read_without_a_single_device_serves_the_list_even_when_empty() {
    let tracker = DeviceTracker::new(20, Vec::new());
    match get_status(&tracker, None, 0) {
        ServedStatus::All(statuses) => assert!(statuses.is_empty()),
        ServedStatus::One(status) => panic!("expected the list, got {:?}", status),
    }
}
