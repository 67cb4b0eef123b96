use vstd::prelude::*;
use crate::detector::{best_match_of, is_similar, similar, SlateDetector};
use crate::models::{ModeView, VideoMode};

verus! {

/// Abstract value of an [`Event`].
pub ghost enum EventView {
    Terminate,
    Mode(ModeView),
}

/// Message from the frame loop to the action runtime.
#[derive(Debug, PartialEq, Eq)]
pub enum Event {
    Terminate,
    Mode(VideoMode),
}

impl View for Event {
    type V = EventView;

    open spec fn view(&self) -> EventView {
        match self {
            Event::Terminate => EventView::Terminate,
            Event::Mode(m) => EventView::Mode(m@),
        }
    }
}

/// An event as sent over the channel to the action runtime.
#[derive(Debug)]
pub struct TransitionChange {
    pub event: Event,
}

impl TransitionChange {
    pub fn new(event: Event) -> (r: Self)
        ensures
            r.event == event,
    {
        TransitionChange { event }
    }
}

/// Dissimilarity scores of one frame: against the pure-black reference, and
/// against each reference slate in the detector's order.
#[derive(Clone, Debug)]
pub struct FrameScores {
    pub black: u32,
    pub slates: Vec<u32>,
}

/// One item of the frame source.
#[derive(Clone, Debug)]
pub enum FrameItem {
    /// No frame is ready yet.
    Pending,
    /// The media pipeline reported an error.
    Failed,
    /// A decoded frame, scored against the references.
    Frame(FrameScores),
}

/// A frame-source item with the value of the "running" flag read when it
/// was handled.
#[derive(Clone, Debug)]
pub struct FrameInput {
    pub item: FrameItem,
    pub running: bool,
}

/// Classification of a scored frame against slates `urls`: `None` for a
/// black frame (dropped), else the best matching slate, else content.
pub open spec fn classification(urls: Seq<Seq<char>>, s: FrameScores) -> Option<ModeView> {
    if similar(s.black) {
        None
    } else {
        match best_match_of(s.slates@) {
            Some(i) => Some(ModeView::Slate(urls[i])),
            None => Some(ModeView::Content),
        }
    }
}

/// What the frame loop does with one item.
#[derive(Debug)]
pub enum FrameStep {
    /// Nothing to do yet: sleep briefly and poll again.
    Wait,
    /// A black frame: no event.
    Drop,
    /// Send `Mode(mode)`; then stop if `stop`.
    Emit { mode: VideoMode, stop: bool },
    /// Stop cleanly.
    Finish,
    /// Stop because the pipeline failed.
    Abort,
}

/// Abstract value of a [`FrameStep`].
pub ghost enum StepView {
    Wait,
    Drop,
    Emit(ModeView, bool),
    Finish,
    Abort,
}

impl View for FrameStep {
    type V = StepView;

    open spec fn view(&self) -> StepView {
        match self {
            FrameStep::Wait => StepView::Wait,
            FrameStep::Drop => StepView::Drop,
            FrameStep::Emit { mode, stop } => StepView::Emit(mode@, *stop),
            FrameStep::Finish => StepView::Finish,
            FrameStep::Abort => StepView::Abort,
        }
    }
}

/// The step taken for `input`. An empty poll waits while running and
/// finishes otherwise; a pipeline error aborts; a black frame is dropped
/// without looking at the flag; any other frame emits its classification
/// and stops afterwards when the flag is down.
pub open spec fn step_of(urls: Seq<Seq<char>>, input: FrameInput) -> StepView {
    match input.item {
        FrameItem::Pending => if input.running { StepView::Wait } else { StepView::Finish },
        FrameItem::Failed => StepView::Abort,
        FrameItem::Frame(s) => match classification(urls, s) {
            None => StepView::Drop,
            Some(m) => StepView::Emit(m, !input.running),
        },
    }
}

/// Events sent for the inputs `inputs`, ending with `Terminate`.
pub open spec fn events_of(urls: Seq<Seq<char>>, inputs: Seq<FrameInput>) -> Seq<EventView>
    decreases inputs.len(),
{
    if inputs.len() == 0 {
        seq![EventView::Terminate]
    } else {
        match step_of(urls, inputs[0]) {
            StepView::Wait | StepView::Drop => events_of(urls, inputs.drop_first()),
            StepView::Emit(m, stop) => if stop {
                seq![EventView::Mode(m), EventView::Terminate]
            } else {
                seq![EventView::Mode(m)] + events_of(urls, inputs.drop_first())
            },
            StepView::Finish | StepView::Abort => seq![EventView::Terminate],
        }
    }
}

/// Whether processing `inputs` ends on a pipeline error.
pub open spec fn fails_on(urls: Seq<Seq<char>>, inputs: Seq<FrameInput>) -> bool
    decreases inputs.len(),
{
    if inputs.len() == 0 {
        false
    } else {
        match step_of(urls, inputs[0]) {
            StepView::Wait | StepView::Drop => fails_on(urls, inputs.drop_first()),
            StepView::Emit(m, stop) => !stop && fails_on(urls, inputs.drop_first()),
            StepView::Finish => false,
            StepView::Abort => true,
        }
    }
}

/// A frame of `input`, if any, carries one score per slate of `urls`.
pub open spec fn scored_for(urls: Seq<Seq<char>>, input: FrameInput) -> bool {
    input.item matches FrameItem::Frame(s) ==> s.slates.len() == urls.len()
}

/// Classifies one scored frame.
pub fn classify(detector: &SlateDetector, scores: &FrameScores) -> (r: Option<VideoMode>)
    requires
        scores.slates.len() == detector@.len(),
    ensures
        match classification(detector@, *scores) {
            Some(m) => r is Some && r.unwrap()@ == m,
            None => r is None,
        },
{
    if is_similar(scores.black) {
        return None;
    }
    match detector.matched_slate(&scores.slates) {
        Some(url) => Some(VideoMode::Slate { url }),
        None => Some(VideoMode::Content),
    }
}

/// Decides what the frame loop does with `input`.
pub fn frame_step(detector: &SlateDetector, input: &FrameInput) -> (r: FrameStep)
    requires
        input.item matches FrameItem::Frame(s) ==> s.slates.len() == detector@.len(),
    ensures
        r@ == step_of(detector@, *input),
{
    match &input.item {
        FrameItem::Pending => if input.running {
            FrameStep::Wait
        } else {
            FrameStep::Finish
        },
        FrameItem::Failed => FrameStep::Abort,
        FrameItem::Frame(s) => match classify(detector, s) {
            None => FrameStep::Drop,
            Some(mode) => FrameStep::Emit { mode, stop: !input.running },
        },
    }
}

/// Result of running the frame loop over a finite input.
#[derive(Debug)]
pub struct FramesOutcome {
    /// Events sent to the action runtime, in order.
    pub events: Vec<Event>,
    /// Whether the loop ended on a pipeline error.
    pub failed: bool,
}

pub open spec fn event_views(events: Seq<Event>) -> Seq<EventView> {
    events.map_values(|e: Event| e@)
}

/// Runs the frame loop over `inputs`: one event per non-black frame until
/// the loop stops, then a single `Terminate`.
pub fn process_frames(detector: &SlateDetector, inputs: &Vec<FrameInput>) -> (r: FramesOutcome)
    requires
        forall|i: int| 0 <= i < inputs.len() ==> scored_for(detector@, #[trigger] inputs[i]),
    ensures
        event_views(r.events@) == events_of(detector@, inputs@),
        r.failed == fails_on(detector@, inputs@),
{
    let mut events: Vec<Event> = Vec::new();
    let mut i: usize = 0;
    let n = inputs.len();
    assert(inputs@.subrange(0, n as int) =~= inputs@);
    assert(event_views(events@) =~= Seq::<EventView>::empty());
    while i < n
        invariant
            n == inputs.len(),
            i <= n,
            forall|k: int| 0 <= k < inputs.len() ==> scored_for(detector@, #[trigger] inputs[k]),
            event_views(events@) + events_of(detector@, inputs@.subrange(i as int, n as int))
                == events_of(detector@, inputs@),
            fails_on(detector@, inputs@.subrange(i as int, n as int)) == fails_on(detector@, inputs@),
        decreases n - i,
    {
        let ghost rest = inputs@.subrange(i as int, n as int);
        assert(rest.drop_first() == inputs@.subrange(i + 1, n as int));
        assert(rest[0] == inputs[i as int]);
        let step = frame_step(detector, &inputs[i]);
        match step {
            FrameStep::Wait | FrameStep::Drop => {},
            FrameStep::Emit { mode, stop } => {
                events.push(Event::Mode(mode));
                if stop {
                    events.push(Event::Terminate);
                    assert(event_views(events@) =~= event_views(events@.drop_last().drop_last())
                        + seq![events@[events.len() - 2]@, EventView::Terminate]);
                    return FramesOutcome { events, failed: false };
                }
                assert(event_views(events@) =~= event_views(events@.drop_last()) + seq![events@.last()@]);
            },
            FrameStep::Finish => {
                events.push(Event::Terminate);
                assert(event_views(events@) =~= event_views(events@.drop_last()) + seq![EventView::Terminate]);
                return FramesOutcome { events, failed: false };
            },
            FrameStep::Abort => {
                events.push(Event::Terminate);
                assert(event_views(events@) =~= event_views(events@.drop_last()) + seq![EventView::Terminate]);
                return FramesOutcome { events, failed: true };
            },
        }
        i = i + 1;
    }
    let ghost before = events@;
    events.push(Event::Terminate);
    assert(event_views(events@) =~= event_views(before) + seq![EventView::Terminate]);
    FramesOutcome { events, failed: false }
}

/// A black frame produces no event: the events for a black frame followed by
/// `rest` are those for `rest`.
pub proof fn lemma_black_frame_emits_nothing(urls: Seq<Seq<char>>, frame: FrameInput, rest: Seq<FrameInput>)
    requires
        frame.item matches FrameItem::Frame(s) && similar(s.black),
    ensures
        events_of(urls, seq![frame] + rest) == events_of(urls, rest),
{
    assert((seq![frame] + rest).drop_first() == rest);
    assert((seq![frame] + rest)[0] == frame);
}

/// A non-black frame handled while the loop is running.
pub open spec fn shown_frame(input: FrameInput) -> bool {
    input.running && (input.item matches FrameItem::Frame(s) && !similar(s.black))
}

/// Non-black frames handled while running produce, in order, one `Mode`
/// event each carrying their classification, followed by `Terminate` when
/// the source ends.
pub proof fn lemma_ordered_classification(urls: Seq<Seq<char>>, inputs: Seq<FrameInput>)
    requires
        forall|i: int| 0 <= i < inputs.len() ==> #[trigger] shown_frame(inputs[i]),
    ensures
        events_of(urls, inputs) == inputs.map_values(
            |f: FrameInput| EventView::Mode(classification(urls, f.item->Frame_0).unwrap()),
        ).push(EventView::Terminate),
    decreases inputs.len(),
{
    let f = |g: FrameInput| EventView::Mode(classification(urls, g.item->Frame_0).unwrap());
    if inputs.len() > 0 {
        let rest = inputs.drop_first();
        lemma_ordered_classification(urls, rest);
        assert(shown_frame(inputs[0]));
        let m = classification(urls, inputs[0].item->Frame_0).unwrap();
        assert(step_of(urls, inputs[0]) == StepView::Emit(m, false));
        assert(events_of(urls, inputs) == seq![EventView::Mode(m)] + events_of(urls, rest));
        assert(inputs.map_values(f).push(EventView::Terminate) =~= seq![EventView::Mode(m)]
            + rest.map_values(f).push(EventView::Terminate));
    } else {
        assert(inputs.map_values(f).push(EventView::Terminate) =~= seq![EventView::Terminate]);
    }
}

} // verus!
