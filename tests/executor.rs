use hawkeye::executor::{build_executors, ActionExecutor, Runtime, TransitionStateChange};
use hawkeye::frames::{Event, TransitionChange};
use hawkeye::models::{Action, HttpAuth, HttpCall, HttpMethod, Transition, VideoMode};

fn action(url: &str) -> Action {
    Action::HttpCall(HttpCall {
        method: HttpMethod::POST,
        url: url.to_string(),
        description: None,
        authorization: None,
        headers: None,
        body: None,
        retries: None,
        timeout: None,
    })
}

fn slate(url: &str) -> VideoMode {
    VideoMode::Slate { url: url.to_string() }
}

fn content_to_slate(url: &str) -> ActionExecutor {
    ActionExecutor::new(
        TransitionStateChange(VideoMode::Content, slate(url)),
        action("http://localhost/trigger"),
    )
}

/// Observes `mode` at `now`; a due action is run and succeeds.
fn observe(executor: &mut ActionExecutor, mode: &VideoMode, now: u64) -> bool {
    let due = executor.execute(mode, now);
    if due {
        executor.record_success(now);
    }
    due
}

#[test]
fn executor_slate_action_called_when_transition_content_to_slate() {
    let slate_url_filename = "foobar".to_string();
    let mut executor = content_to_slate(&slate_url_filename);
    let mut called = observe(&mut executor, &VideoMode::Content, 0);
    // Not due since it was the first state found
    assert!(!called);

    called = observe(&mut executor, &slate(&slate_url_filename), 0);
    // Due since the state transition matches the executor's
    assert!(called);
}

#[test]
fn executor_slate_action_cannot_be_called_twice_in_short_timeframe() {
    let slate_url_filename = "foobar";
    let mut executor = content_to_slate(slate_url_filename);
    observe(&mut executor, &VideoMode::Content, 0);
    let called = observe(&mut executor, &slate(slate_url_filename), 0);
    assert!(called);
    let mut called = observe(&mut executor, &VideoMode::Content, 0);
    called |= observe(&mut executor, &slate(slate_url_filename), 0);
    assert!(!called);
}

#[test]
fn executor_slate_action_can_be_called_twice_after_some_time_passes() {
    let slate_url_filename = "foobar";
    let mut executor = content_to_slate(slate_url_filename);
    observe(&mut executor, &VideoMode::Content, 0);
    let called = observe(&mut executor, &slate(slate_url_filename), 0);
    assert!(called);

    // Move time forward over the delay
    let later = 11 * 1000;

    let mut called = observe(&mut executor, &VideoMode::Content, later);
    called |= observe(&mut executor, &slate(slate_url_filename), later);
    assert!(called);
}

#[test]
fn executor_slate_action_cannot_be_called_twice_if_no_mode_change() {
    let slate_url_filename = "foobar";
    let mut executor = content_to_slate(slate_url_filename);
    observe(&mut executor, &VideoMode::Content, 0);
    let called = observe(&mut executor, &slate(slate_url_filename), 0);
    assert!(called);

    // Move time forward over the delay
    let later = 20 * 1000;

    let called = observe(&mut executor, &slate(slate_url_filename), later);
    assert!(!called);
}

#[test]
fn runtime_calls_action_executor_with_video_mode() {
    let slate_url_filename = "foobar";
    let mut executor = content_to_slate(slate_url_filename);
    // Prepare executor to be ready in the next call with `VideoMode::Slate`
    assert!(!executor.execute(&VideoMode::Content, 0));

    // Pile up some events for the runtime to consume
    let events = vec![
        TransitionChange::new(Event::Mode(slate(slate_url_filename))),
        TransitionChange::new(Event::Terminate),
    ];

    let mut runtime = Runtime::new(vec![executor]);
    let mut called = Vec::new();
    for msg in events.iter() {
        match runtime.handle(&msg.event, 0) {
            None => break,
            Some(due) => called.extend(due),
        }
    }

    // Check the action was called
    assert_eq!(called, vec![0]);
}

#[test]
fn build_executor_from_models() {
    let transition = Transition {
        from: VideoMode::Content,
        to: slate("http://foo.bar/baz.png"),
        actions: vec![Action::HttpCall(HttpCall {
            description: Some("Trigger AdBreak using API".to_string()),
            method: HttpMethod::POST,
            url: "http://non-existent.cbsi.com/v1/organization/cbsa/channel/sl/ad-break"
                .to_string(),
            authorization: Some(HttpAuth::Basic {
                username: "dev_user".to_string(),
                password: "something".to_string(),
            }),
            headers: Some(vec![(
                "content-type".to_string(),
                "application/json".to_string(),
            )]),
            body: Some("{\"duration\":320}".to_string()),
            retries: Some(3),
            timeout: Some(10),
        })],
    };

    let executors = hawkeye::executor::executors_for(transition);
    assert_eq!(executors.len(), 1);
}

#[test]
fn build_executors_flattens_transitions_in_order() {
    let transitions = vec![
        Transition {
            from: VideoMode::Content,
            to: slate("http://h/a.png"),
            actions: vec![action("http://h/1"), action("http://h/2")],
        },
        Transition {
            from: slate("http://h/a.png"),
            to: VideoMode::Content,
            actions: vec![action("http://h/3")],
        },
    ];
    let executors = build_executors(transitions);
    let urls: Vec<String> = executors
        .iter()
        .map(|e| match e.get_action() {
            Action::HttpCall(c) => c.url.clone(),
        })
        .collect();
    assert_eq!(urls, vec!["http://h/1", "http://h/2", "http://h/3"]);
}

#[test]
fn debounce_window_edges() {
    // Fires once when the second transition is exactly at the window, twice just past it.
    for (gap, expected) in [(5000u64, 1), (5001u64, 2), (0, 1)] {
        let mut executor = content_to_slate("A");
        let mut fired = 0;
        let t1 = 1000;
        let events = [
            (VideoMode::Content, 0),
            (slate("A"), t1),
            (VideoMode::Content, t1),
            (slate("A"), t1 + gap),
        ];
        for (m, t) in events.iter() {
            if observe(&mut executor, m, *t) {
                fired += 1;
            }
        }
        assert_eq!(fired, expected, "gap {}", gap);
    }
}

#[test]
fn failed_action_does_not_start_debounce_window() {
    let mut executor = content_to_slate("A");
    executor.execute(&VideoMode::Content, 0);
    assert!(executor.execute(&slate("A"), 10));
    // The action failed: no success recorded.
    executor.execute(&VideoMode::Content, 20);
    assert!(executor.execute(&slate("A"), 30));
}

#[test]
fn fresh_executor_never_fires_first() {
    let mut executor = content_to_slate("A");
    assert!(!executor.execute(&slate("A"), 100_000));
    let mut executor = content_to_slate("A");
    assert!(!executor.execute(&VideoMode::Content, 100_000));
}

#[test]
fn executors_debounce_independently() {
    let mut runtime = Runtime::new(vec![content_to_slate("A"), content_to_slate("A")]);
    assert_eq!(runtime.handle(&Event::Mode(VideoMode::Content), 0), Some(vec![]));
    assert_eq!(runtime.handle(&Event::Mode(slate("A")), 10), Some(vec![0, 1]));
    runtime.record_success(0, 10);
    assert_eq!(runtime.handle(&Event::Mode(VideoMode::Content), 20), Some(vec![]));
    assert_eq!(runtime.handle(&Event::Mode(slate("A")), 30), Some(vec![1]));
    assert_eq!(runtime.handle(&Event::Terminate, 40), None);
    assert_eq!(runtime.len(), 2);
}
