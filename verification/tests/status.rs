use uptime::CheckOutcome;
use uptime::Method;
use uptime::Status;
use uptime::Website;

fn site(method: Method, interval: Option<u32>) -> Website {
    Website {
        name: String::from("example"),
        endpoint: String::from("https://example.invalid"),
        method,
        description: None,
        last_online: None,
        status: Status::Down,
        update_interval: interval,
        next_update: None,
    }
}

#[test]
fn default_status_is_down() {
    assert_eq!(Status::default(), Status::Down);
}

#[test]
fn success_codes_mark_up() {
    for code in [200u16, 201, 204, 250, 299] {
        let mut w = site(Method::Get, None);
        w.apply_outcome(CheckOutcome::Completed(code), 1234);
        assert_eq!(w.status, Status::Up);
        assert_eq!(w.last_online, Some(1234));
    }
}

#[test]
fn non_success_codes_mark_down() {
    for code in [100u16, 199, 300, 301, 404, 500, 599] {
        let mut w = site(Method::Get, None);
        w.apply_outcome(CheckOutcome::Completed(code), 1234);
        assert_eq!(w.status, Status::Down);
        assert_eq!(w.last_online, None);
    }
}

#[test]
fn transport_failure_marks_down() {
    let mut w = site(Method::Get, None);
    w.apply_outcome(CheckOutcome::Failed, 1234);
    assert_eq!(w.status, Status::Down);
    assert_eq!(w.last_online, None);
}

#[test]
fn failure_keeps_last_online() {
    let mut w = site(Method::Get, None);
    w.apply_outcome(CheckOutcome::Completed(200), 100);
    assert_eq!(w.last_online, Some(100));
    w.apply_outcome(CheckOutcome::Failed, 900);
    assert_eq!(w.status, Status::Down);
    assert_eq!(w.last_online, Some(100));
    w.apply_outcome(CheckOutcome::Completed(503), 950);
    assert_eq!(w.last_online, Some(100));
}

#[test]
fn last_online_advances_on_success() {
    let mut w = site(Method::Get, None);
    w.apply_outcome(CheckOutcome::Completed(200), 100);
    w.apply_outcome(CheckOutcome::Completed(204), 250);
    assert_eq!(w.last_online, Some(250));
    assert_eq!(w.status, Status::Up);
}

#[test]
fn update_status_stamps_clock() {
    let mut w = site(Method::Get, None);
    w.update_status(CheckOutcome::Completed(200));
    assert_eq!(w.status, Status::Up);
    assert!(w.last_online.is_some());
    let stamped = w.last_online;
    w.update_status(CheckOutcome::Failed);
    assert_eq!(w.status, Status::Down);
    assert_eq!(w.last_online, stamped);
}

#[test]
fn apply_outcome_leaves_other_fields() {
    let mut w = site(Method::Post, Some(30));
    w.next_update = Some(7);
    w.description = Some(String::from("a service"));
    w.apply_outcome(CheckOutcome::Completed(200), 55);
    assert_eq!(w.name, "example");
    assert_eq!(w.endpoint, "https://example.invalid");
    assert_eq!(w.method, Method::Post);
    assert_eq!(w.description, Some(String::from("a service")));
    assert_eq!(w.update_interval, Some(30));
    assert_eq!(w.next_update, Some(7));
}

#[test]
fn outcome_success_range() {
    assert!(CheckOutcome::Completed(200).is_success());
    assert!(CheckOutcome::Completed(299).is_success());
    assert!(!CheckOutcome::Completed(199).is_success());
    assert!(!CheckOutcome::Completed(300).is_success());
    assert!(!CheckOutcome::Failed.is_success());
}

#[test]
fn only_get_and_post_are_supported() {
    assert!(Method::Get.is_supported());
    assert!(Method::Post.is_supported());
    for m in [
        Method::Head,
        Method::Put,
        Method::Delete,
        Method::Connect,
        Method::Options,
        Method::Trace,
        Method::Patch,
    ] {
        assert!(!m.is_supported());
    }
}
