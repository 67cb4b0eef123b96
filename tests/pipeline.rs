use hawkeye::detector::{best_match, is_similar, SlateDetector, MATCH_THRESHOLD};
use hawkeye::executor::{ActionExecutor, Runtime, TransitionStateChange};
use hawkeye::frames::{classify, frame_step, process_frames, Event, FrameInput, FrameItem, FrameScores, FrameStep};
use hawkeye::detector::{ingest_format, slate_urls, IngestFormat};
use hawkeye::models::{Action, Codec, Container, HttpCall, HttpMethod, Transition, VideoMode};

const A: &str = "http://slates/a.png";
const B: &str = "http://slates/b.png";

fn detector() -> SlateDetector {
    SlateDetector::new(vec![A.to_string(), B.to_string()])
}

fn frame(black: u32, a: u32, b: u32) -> FrameItem {
    FrameItem::Frame(FrameScores { black, slates: vec![a, b] })
}

fn running(item: FrameItem) -> FrameInput {
    FrameInput { item, running: true }
}

fn black() -> FrameItem {
    frame(0, 950, 950)
}

fn non_a() -> FrameItem {
    frame(990, 980, 970)
}

fn frame_a() -> FrameItem {
    frame(990, 0, 960)
}

fn frame_b() -> FrameItem {
    frame(990, 960, 0)
}

fn slate(url: &str) -> VideoMode {
    VideoMode::Slate { url: url.to_string() }
}

fn post(url: &str) -> Action {
    Action::HttpCall(HttpCall {
        method: HttpMethod::POST,
        url: url.to_string(),
        description: None,
        authorization: None,
        headers: None,
        body: None,
        retries: None,
        timeout: None,
    })
}

fn runtime(targets: &[&str]) -> Runtime {
    Runtime::new(
        targets
            .iter()
            .map(|t| {
                ActionExecutor::new(
                    TransitionStateChange(VideoMode::Content, slate(t)),
                    post(&format!("http://api/trigger/{}", t)),
                )
            })
            .collect(),
    )
}

/// Sends `events` through `runtime` at the given times, running every due
/// action successfully; returns the indices of the executors whose action ran.
fn dispatch(runtime: &mut Runtime, events: &[Event], times: &[u64]) -> Vec<usize> {
    let mut calls = Vec::new();
    for (e, t) in events.iter().zip(times.iter().chain(std::iter::repeat(times.last().unwrap()))) {
        match runtime.handle(e, *t) {
            None => break,
            Some(due) => {
                for i in due {
                    runtime.record_success(i, *t);
                    calls.push(i);
                }
            }
        }
    }
    calls
}

#[test]
fn best_match_prefers_lowest_and_earliest() {
    assert_eq!(best_match(&vec![]), None);
    assert_eq!(best_match(&vec![901, 1000]), None);
    assert_eq!(best_match(&vec![900]), Some(0));
    assert_eq!(best_match(&vec![500, 300, 300, 901]), Some(1));
    assert!(is_similar(MATCH_THRESHOLD));
    assert!(!is_similar(MATCH_THRESHOLD + 1));
}

#[test]
fn identical_frame_matches_its_reference() {
    let d = detector();
    assert_eq!(d.matched_slate(&vec![0, 700]), Some(A.to_string()));
    assert_eq!(d.matched_slate(&vec![700, 0]), Some(B.to_string()));
}

#[test]
fn dissimilar_frame_matches_nothing() {
    let d = detector();
    assert_eq!(d.matched_slate(&vec![901, 4000]), None);
    assert!(!d.is_match(&vec![901, 4000]));
    assert!(d.is_match(&vec![901, 900]));
    assert_eq!(classify(&d, &FrameScores { black: 999, slates: vec![901, 4000] }), Some(VideoMode::Content));
}

#[test]
fn black_frame_is_never_classified() {
    let d = detector();
    assert_eq!(classify(&d, &FrameScores { black: 0, slates: vec![0, 0] }), None);
    let step = frame_step(&d, &FrameInput { item: black(), running: false });
    assert!(matches!(step, FrameStep::Drop));
    let out = process_frames(&d, &vec![running(black()), running(black())]);
    assert_eq!(out.events, vec![Event::Terminate]);
}

#[test]
fn ordered_classification() {
    let d = detector();
    let out = process_frames(&d, &vec![running(non_a()), running(frame_a()), running(non_a())]);
    assert_eq!(
        out.events,
        vec![
            Event::Mode(VideoMode::Content),
            Event::Mode(slate(A)),
            Event::Mode(VideoMode::Content),
            Event::Terminate,
        ]
    );
    assert!(!out.failed);
}

#[test]
fn pending_frames_wait_or_finish() {
    let d = detector();
    assert!(matches!(frame_step(&d, &running(FrameItem::Pending)), FrameStep::Wait));
    let stop = FrameInput { item: FrameItem::Pending, running: false };
    assert!(matches!(frame_step(&d, &stop), FrameStep::Finish));
    let out = process_frames(&d, &vec![running(FrameItem::Pending), stop, running(frame_a())]);
    assert_eq!(out.events, vec![Event::Terminate]);
}

#[test]
fn pipeline_error_terminates_and_reports() {
    let d = detector();
    let out = process_frames(&d, &vec![running(non_a()), running(FrameItem::Failed), running(frame_a())]);
    assert_eq!(out.events, vec![Event::Mode(VideoMode::Content), Event::Terminate]);
    assert!(out.failed);
}

#[test]
fn content_to_slate_fires_once() {
    let d = detector();
    let inputs = vec![
        running(non_a()),
        running(non_a()),
        running(frame_a()),
        running(frame_a()),
        running(frame_a()),
    ];
    let out = process_frames(&d, &inputs);
    assert_eq!(
        out.events,
        vec![
            Event::Mode(VideoMode::Content),
            Event::Mode(VideoMode::Content),
            Event::Mode(slate(A)),
            Event::Mode(slate(A)),
            Event::Mode(slate(A)),
            Event::Terminate,
        ]
    );
    let mut rt = runtime(&[A]);
    assert_eq!(dispatch(&mut rt, &out.events, &[0, 100, 200, 300, 400]), vec![0]);
}

#[test]
fn debounce_suppression() {
    let d = detector();
    let out = process_frames(
        &d,
        &vec![running(non_a()), running(frame_a()), running(non_a()), running(frame_a())],
    );
    let mut rt = runtime(&[A]);
    assert_eq!(dispatch(&mut rt, &out.events, &[0, 500, 1000, 2000]), vec![0]);
}

#[test]
fn debounce_release() {
    let d = detector();
    let out = process_frames(
        &d,
        &vec![running(non_a()), running(frame_a()), running(non_a()), running(frame_a())],
    );
    let mut rt = runtime(&[A]);
    assert_eq!(dispatch(&mut rt, &out.events, &[0, 100, 6100, 6200]), vec![0, 0]);
}

#[test]
fn black_frame_invariant() {
    let d = detector();
    let out = process_frames(
        &d,
        &vec![running(black()), running(black()), running(non_a()), running(frame_a())],
    );
    assert_eq!(
        out.events,
        vec![Event::Mode(VideoMode::Content), Event::Mode(slate(A)), Event::Terminate]
    );
    let mut rt = runtime(&[A]);
    assert_eq!(dispatch(&mut rt, &out.events, &[0, 100, 200]), vec![0]);
}

#[test]
fn two_slate_selection() {
    let d = detector();
    let out = process_frames(&d, &vec![running(non_a()), running(frame_a())]);
    let mut rt = runtime(&[A, B]);
    assert_eq!(dispatch(&mut rt, &out.events, &[0, 100]), vec![0]);
    let out = process_frames(&d, &vec![running(non_a()), running(frame_b())]);
    let mut rt = runtime(&[A, B]);
    assert_eq!(dispatch(&mut rt, &out.events, &[0, 100]), vec![1]);
}

#[test]
fn graceful_shutdown() {
    let d = detector();
    let inputs = vec![
        running(non_a()),
        running(non_a()),
        FrameInput { item: frame_a(), running: false },
        running(frame_a()),
        running(frame_a()),
    ];
    let out = process_frames(&d, &inputs);
    assert_eq!(
        out.events,
        vec![
            Event::Mode(VideoMode::Content),
            Event::Mode(VideoMode::Content),
            Event::Mode(slate(A)),
            Event::Terminate,
        ]
    );
    assert!(!out.failed);
    let mut rt = runtime(&[A]);
    assert_eq!(dispatch(&mut rt, &out.events, &[0, 100, 200, 300]), vec![0]);
}

#[test]
fn slate_urls_are_distinct_in_first_reference_order() {
    let ts = vec![
        Transition { from: VideoMode::Content, to: slate(B), actions: vec![] },
        Transition { from: slate(A), to: VideoMode::Content, actions: vec![] },
        Transition { from: VideoMode::Content, to: slate(B), actions: vec![] },
        Transition { from: VideoMode::Content, to: VideoMode::Content, actions: vec![] },
    ];
    assert_eq!(slate_urls(&ts), vec![B.to_string(), A.to_string()]);
    assert!(slate_urls(&vec![]).is_empty());
}

#[test]
fn supported_ingest_formats() {
    assert_eq!(ingest_format(Container::MpegTs, Codec::H264), Some(IngestFormat::MpegTsH264));
    assert_eq!(ingest_format(Container::RawVideo, Codec::H264), Some(IngestFormat::RawH264));
    assert_eq!(ingest_format(Container::Fmp4, Codec::H264), None);
    assert_eq!(ingest_format(Container::MpegTs, Codec::H265), None);
}
