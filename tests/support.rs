use hawkeye::snapshot::{latest_frame_reply, LatestFrame};
use hawkeye::api::{DeploymentState, ErrorResponse, WatcherStartStatus, WatcherStatus, WatcherStopStatus};
use hawkeye::models::{HttpCall, HttpMethod, Status};
use hawkeye::retry::{after_attempt, is_success, run_attempts, RetryDecision};
use hawkeye::slate::{SlateError, Url};

#[test]
fn failing_call_with_three_retries_makes_four_attempts() {
    let report = run_attempts(Some(3), &vec![false; 4]);
    assert_eq!(report.attempts, 4);
    assert_eq!(report.retried, 3);
    assert!(report.exhausted);
    assert!(!report.succeeded);
}

#[test]
fn call_without_retries_makes_one_attempt() {
    let report = run_attempts(None, &vec![false]);
    assert_eq!(report.attempts, 1);
    assert!(report.exhausted);
    let report = run_attempts(Some(2), &vec![false, true, false]);
    assert_eq!(report.attempts, 2);
    assert!(report.succeeded);
    assert!(!report.exhausted);
}

#[test]
fn retry_decisions() {
    assert_eq!(after_attempt(1, None, true), RetryDecision::Done);
    assert_eq!(after_attempt(1, None, false), RetryDecision::Exhausted);
    assert_eq!(after_attempt(3, Some(3), false), RetryDecision::Retry);
    assert_eq!(after_attempt(4, Some(3), false), RetryDecision::Exhausted);
}

#[test]
fn success_statuses() {
    assert!(is_success(Some(200)));
    assert!(is_success(Some(202)));
    assert!(is_success(Some(399)));
    assert!(!is_success(Some(199)));
    assert!(!is_success(Some(400)));
    assert!(!is_success(Some(500)));
    assert!(!is_success(None));
}

#[test]
fn http_call_limits() {
    let call = HttpCall {
        method: HttpMethod::PATCH,
        url: "http://h".to_string(),
        description: None,
        authorization: None,
        headers: None,
        body: None,
        retries: Some(3),
        timeout: Some(10),
    };
    assert_eq!(call.attempt_limit(), 4);
    assert_eq!(call.timeout_millis(), Some(10_000));
    assert_eq!(call.method.to_string(), "PATCH");
    assert_eq!(HttpMethod::DELETE.to_string(), "DELETE");
}

#[test]
fn slate_plans() {
    let http = Url::new("https://cdn/x/slate.jpg").plan().unwrap();
    assert!(http.download);
    assert_eq!(http.location, "https://cdn/x/slate.jpg");
    assert_eq!(http.extension, "jpg");
    assert!(!http.is_video);

    let local = Url::new("file:///srv/intro.mp4").plan().unwrap();
    assert!(!local.download);
    assert_eq!(local.location, "/srv/intro.mp4");
    assert!(local.is_video);

    assert_eq!(Url::new("file:///srv/x.gif").plan().err(), Some(SlateError::UnknownExtension));
    assert_eq!(Url::new("http://h/noext").plan().err(), Some(SlateError::MissingExtension));
    assert!(Url::new("http://h/a.png").is_http());
    assert!(!Url::new("file://h/a.png").is_http());
    assert_eq!(Url::new("./rel/a.mkv").local_path(), "./rel/a.mkv");
    assert_eq!(Url::new("./rel/a.mkv").extension(), Some("mkv".to_string()));
}

#[test]
fn status_names() {
    assert_eq!(Status::from_str("running"), Ok(Status::Running));
    assert_eq!(Status::from_str("ready"), Ok(Status::Ready));
    assert_eq!(Status::from_str("Ready"), Err(()));
    assert_eq!(Status::Pending.to_string(), "Pending");
}

#[test]
fn watcher_status_from_deployment() {
    let s = |target, reported| DeploymentState { target_status: target, reported }.get_watcher_status();
    assert_eq!(s(Some(Status::Running), Some(Some(1))), Status::Running);
    assert_eq!(s(Some(Status::Ready), Some(Some(0))), Status::Ready);
    assert_eq!(s(Some(Status::Ready), Some(None)), Status::Ready);
    assert_eq!(s(Some(Status::Running), Some(None)), Status::Pending);
    assert_eq!(s(Some(Status::Ready), Some(Some(2))), Status::Pending);
    assert_eq!(s(None, Some(Some(2))), Status::Error);
    assert_eq!(s(Some(Status::Running), None), Status::Error);
}

#[test]
fn error_messages() {
    assert_eq!(ErrorResponse::new("boom").message, "boom");
    assert_eq!(WatcherStartStatus::NotFound.message(), "Watcher not found.");
    assert_eq!(WatcherStopStatus::Stopping.message(), "Watcher is stopping.");
}

#[test]
fn start_and_stop_guards() {
    assert_eq!(WatcherStartStatus::for_status(Status::Ready), WatcherStartStatus::Starting);
    assert_eq!(WatcherStartStatus::for_status(Status::Running), WatcherStartStatus::AlreadyRunning);
    assert_eq!(WatcherStartStatus::for_status(Status::Pending), WatcherStartStatus::CurrentlyUpdating);
    assert_eq!(WatcherStartStatus::for_status(Status::Error), WatcherStartStatus::InErrorState);
    assert_eq!(WatcherStopStatus::for_status(Status::Running), WatcherStopStatus::Stopping);
    assert_eq!(WatcherStopStatus::for_status(Status::Ready), WatcherStopStatus::AlreadyStopped);
    assert_eq!(WatcherStopStatus::for_status(Status::Pending), WatcherStopStatus::CurrentlyUpdating);
    assert_eq!(WatcherStopStatus::for_status(Status::Error), WatcherStopStatus::InErrorState);
}

#[test]
fn latest_frame_is_served_after_a_store() {
    let mut slot = LatestFrame::new();
    let reply = latest_frame_reply(slot.get());
    assert_eq!(reply.status, 404);
    assert_eq!(reply.content_type, None);
    slot.store(vec![1, 2, 3]);
    slot.store(vec![4, 5]);
    assert_eq!(slot.get(), Some(&vec![4, 5]));
    let reply = latest_frame_reply(slot.get());
    assert_eq!(reply.status, 200);
    assert_eq!(reply.content_type, Some("image/png".to_string()));
    assert!(reply.no_store);
}
