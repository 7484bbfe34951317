use gcopy_desktop::clipboard::{hash_content, read_clipboard, ClipboardContent, ClipboardError};
use gcopy_desktop::clipboard::{ClipboardMonitor, ClipboardWrite};
use gcopy_desktop::cycle::{Phase, SyncAction, SyncCycle, SyncInput, SyncStep, Trigger};
use gcopy_desktop::image::{image_to_png, ImageError, RawImage};
use gcopy_desktop::protocol::{PullRequest, PushRequest, ResponseHead};
use gcopy_desktop::sync::{get_sync_status, SyncError, SyncEvent, SyncState, SyncStatus};

const URL: &str = "https://store.example/api/v1/clipboard";

/// A response of the store: status, index header, type header, body.
type Response = (u16, Option<&'static str>, Option<&'static str>, Vec<u8>);

/// The devices of a test: a clipboard and a store that answers from a script.
struct World {
    clipboard: Result<ClipboardContent, ClipboardError>,
    write_fails: bool,
    pushes: Vec<Result<Response, &'static str>>,
    pulls: Vec<Result<Response, &'static str>>,
    body_fails: bool,
    sent_pushes: Vec<PushRequest>,
    sent_pulls: Vec<PullRequest>,
    written: Vec<ClipboardWrite>,
    body: Vec<u8>,
}

impl World {
    fn new() -> World {
        World {
            clipboard: Err(ClipboardError::Empty),
            write_fails: false,
            pushes: Vec::new(),
            pulls: Vec::new(),
            body_fails: false,
            sent_pushes: Vec::new(),
            sent_pulls: Vec::new(),
            written: Vec::new(),
            body: Vec::new(),
        }
    }

    fn head(&mut self, response: Result<Response, &'static str>) -> SyncInput {
        SyncInput::Head(match response {
            Ok((status, index, content_type, body)) => {
                self.body = body;
                Ok(ResponseHead {
                    status,
                    index: index.map(str::to_string),
                    content_type: content_type.map(str::to_string),
                })
            }
            Err(text) => Err(text.to_string()),
        })
    }

    fn perform(&mut self, action: SyncAction) -> SyncInput {
        match action {
            SyncAction::ReadClipboard => SyncInput::Clipboard(self.clipboard.clone()),
            SyncAction::Push(request) => {
                self.sent_pushes.push(request);
                let response = self.pushes.remove(0);
                self.head(response)
            }
            SyncAction::Pull(request) => {
                self.sent_pulls.push(request);
                let response = self.pulls.remove(0);
                self.head(response)
            }
            SyncAction::ReadBody => SyncInput::Body(if self.body_fails {
                Err("connection reset".to_string())
            } else {
                Ok(self.body.clone())
            }),
            SyncAction::Write(written) => {
                if self.write_fails {
                    SyncInput::Written(Err(ClipboardError::Device("busy".to_string())))
                } else {
                    self.written.push(written);
                    SyncInput::Written(Ok(()))
                }
            }
            SyncAction::Done => panic!("nothing to perform"),
        }
    }
}

/// What a driven cycle left behind.
struct Run {
    events: Vec<SyncEvent>,
    failures: Vec<SyncError>,
    answers: usize,
}

fn drive(
    trigger: Trigger,
    state: &mut SyncState,
    monitor: &mut ClipboardMonitor,
    world: &mut World,
) -> Run {
    let (mut cycle, mut step) = SyncCycle::start(trigger, state);
    let mut run = Run { events: Vec::new(), failures: Vec::new(), answers: 0 };
    loop {
        run.events.extend(step.events);
        run.failures.extend(step.failure);
        if step.action == SyncAction::Done {
            assert_eq!(cycle.phase(), Phase::Idle);
            assert_eq!(cycle.trigger(), trigger);
            return run;
        }
        assert_ne!(cycle.phase(), Phase::Idle);
        let input = world.perform(step.action);
        step = cycle.advance(state, monitor, input);
        run.answers += 1;
    }
}

fn state() -> SyncState {
    SyncState::new("https://store.example".to_string(), true)
}

fn status(auto_sync_enabled: bool, is_syncing: bool, last_server_index: u64) -> SyncStatus {
    SyncStatus { auto_sync_enabled, is_syncing, last_server_index }
}

fn text(s: &str) -> ClipboardContent {
    ClipboardContent::Text(s.to_string())
}

fn pulled(content_type: &str) -> SyncEvent {
    SyncEvent::Pulled { content_type: content_type.to_string() }
}

fn pushed(content_type: &str) -> SyncEvent {
    SyncEvent::Pushed { content_type: content_type.to_string() }
}

fn error(message: &str) -> SyncEvent {
    SyncEvent::Error { message: message.to_string() }
}

#[test]
fn manual_cycle_pulls_text_and_the_next_poll_is_quiet() {
    let mut s = state();
    let mut monitor = ClipboardMonitor::new();
    let mut world = World::new();
    world.pulls.push(Ok((200, Some("7"), Some("text"), b"hello".to_vec())));

    let run = drive(Trigger::Manual, &mut s, &mut monitor, &mut world);

    assert_eq!(run.events, vec![SyncEvent::Started, pulled("text"), SyncEvent::Completed]);
    assert_eq!(run.failures, vec![]);
    assert_eq!(world.sent_pulls, vec![PullRequest { url: URL.to_string(), index: "0".to_string() }]);
    assert_eq!(world.written, vec![ClipboardWrite::Text("hello".to_string())]);
    assert_eq!(get_sync_status(&s), status(true, false, 7));
    assert_eq!(monitor.last_hash(), hash_content(&text("hello")));
    assert_eq!(monitor.poll(read_clipboard(None, Some("hello".to_string()))), None);
}

#[test]
fn manual_cycle_pushes_text_and_the_pull_finds_nothing_new() {
    let mut s = state();
    let mut monitor = ClipboardMonitor::new();
    let mut world = World::new();
    world.clipboard = Ok(text("world"));
    world.pushes.push(Ok((200, Some("8"), None, Vec::new())));
    world.pulls.push(Ok((304, None, None, Vec::new())));

    let run = drive(Trigger::Manual, &mut s, &mut monitor, &mut world);

    assert_eq!(run.events, vec![SyncEvent::Started, pushed("text"), SyncEvent::Completed]);
    assert_eq!(run.failures, vec![]);
    assert_eq!(
        world.sent_pushes,
        vec![PushRequest { url: URL.to_string(), content_type: "text", body: b"world".to_vec() }]
    );
    assert_eq!(world.sent_pulls, vec![PullRequest { url: URL.to_string(), index: "8".to_string() }]);
    assert_eq!(world.written, vec![]);
    assert_eq!(get_sync_status(&s), status(true, false, 8));
    assert_eq!(monitor.last_hash(), 0);
}

#[test]
fn failed_push_is_reported_and_the_pull_still_runs() {
    let mut s = state();
    let mut monitor = ClipboardMonitor::new();
    let mut world = World::new();
    world.clipboard = Ok(text("local"));
    world.pushes.push(Ok((500, Some("9"), None, Vec::new())));
    world.pulls.push(Ok((200, Some("3"), Some("text"), b"remote".to_vec())));

    let run = drive(Trigger::Manual, &mut s, &mut monitor, &mut world);

    assert_eq!(
        run.events,
        vec![SyncEvent::Started, error("Server error: 500"), pulled("text"), SyncEvent::Completed]
    );
    assert_eq!(run.failures, vec![SyncError::Server { status: 500 }]);
    assert_eq!(world.sent_pulls[0].index, "0");
    assert_eq!(get_sync_status(&s), status(true, false, 3));
    assert_eq!(run.answers, 5);
}

#[test]
fn unreachable_store_fails_both_steps_and_the_cycle_completes() {
    let mut s = state();
    let mut monitor = ClipboardMonitor::new();
    let mut world = World::new();
    world.clipboard = Ok(text("local"));
    world.pushes.push(Err("connection refused"));
    world.pulls.push(Err("connection refused"));

    let run = drive(Trigger::Manual, &mut s, &mut monitor, &mut world);

    assert_eq!(
        run.events,
        vec![
            SyncEvent::Started,
            error("connection refused"),
            error("connection refused"),
            SyncEvent::Completed
        ]
    );
    assert_eq!(run.failures.len(), 2);
    assert_eq!(get_sync_status(&s), status(true, false, 0));
}

#[test]
fn second_manual_sync_is_rejected_while_the_first_is_in_flight() {
    let mut s = state();
    let (first, step) = SyncCycle::start(Trigger::Manual, &mut s);
    assert_eq!(first.phase(), Phase::LocalRead);
    assert_eq!(
        step,
        SyncStep {
            events: vec![SyncEvent::Started],
            failure: None,
            action: SyncAction::ReadClipboard
        }
    );
    for _ in 0..4 {
        let (rejected, step) = SyncCycle::start(Trigger::Manual, &mut s);
        assert_eq!(rejected.phase(), Phase::Idle);
        assert_eq!(
            step,
            SyncStep {
                events: vec![],
                failure: Some(SyncError::AlreadySyncing),
                action: SyncAction::Done
            }
        );
        assert!(s.is_syncing);
    }
    let (skipped, step) = SyncCycle::start(Trigger::Periodic, &mut s);
    assert_eq!(skipped.phase(), Phase::Idle);
    assert_eq!(step, SyncStep { events: vec![], failure: None, action: SyncAction::Done });
    assert!(s.is_syncing);
}

#[test]
fn cycle_that_is_over_takes_no_answer() {
    let mut s = state();
    let mut monitor = ClipboardMonitor::new();
    let (_running, _) = SyncCycle::start(Trigger::Manual, &mut s);
    let (mut rejected, _) = SyncCycle::start(Trigger::Manual, &mut s);

    let step = rejected.advance(&mut s, &mut monitor, SyncInput::Clipboard(Ok(text("x"))));

    assert_eq!(
        step,
        SyncStep { events: vec![], failure: Some(SyncError::Unexpected), action: SyncAction::Done }
    );
    assert!(s.is_syncing);
    assert_eq!(SyncError::Unexpected.message(), "Unexpected answer in a sync cycle");
}

#[test]
fn answer_that_was_not_asked_for_ends_the_cycle() {
    let mut s = state();
    let mut monitor = ClipboardMonitor::new();
    let (mut cycle, _) = SyncCycle::start(Trigger::Manual, &mut s);

    let step = cycle.advance(&mut s, &mut monitor, SyncInput::Body(Ok(vec![1])));

    assert_eq!(
        step,
        SyncStep {
            events: vec![error("Unexpected answer in a sync cycle"), SyncEvent::Completed],
            failure: Some(SyncError::Unexpected),
            action: SyncAction::Done
        }
    );
    assert_eq!(cycle.phase(), Phase::Idle);
    assert_eq!(get_sync_status(&s), status(true, false, 0));
}

#[test]
fn periodic_cycle_pulls_without_lifecycle_events() {
    let mut s = state();
    let mut monitor = ClipboardMonitor::new();
    let mut world = World::new();
    world.clipboard = Ok(text("never pushed"));
    world.pulls.push(Ok((200, Some("4"), None, b"remote".to_vec())));

    let run = drive(Trigger::Periodic, &mut s, &mut monitor, &mut world);

    assert_eq!(run.events, vec![pulled("text")]);
    assert_eq!(world.sent_pushes, vec![]);
    assert_eq!(world.written, vec![ClipboardWrite::Text("remote".to_string())]);
    assert_eq!(get_sync_status(&s), status(true, false, 4));
    assert_eq!(run.answers, 3);
}

#[test]
fn periodic_cycle_swallows_failures() {
    for response in [Err("timed out"), Ok((503, None, None, Vec::new()))] {
        let mut s = state();
        let mut monitor = ClipboardMonitor::new();
        let mut world = World::new();
        world.pulls.push(response);

        let run = drive(Trigger::Periodic, &mut s, &mut monitor, &mut world);

        assert_eq!(run.events, vec![]);
        assert_eq!(run.failures.len(), 1);
        assert_eq!(get_sync_status(&s), status(true, false, 0));
    }
}

#[test]
fn periodic_cycle_is_skipped_while_auto_sync_is_off() {
    let mut s = SyncState::new("u".to_string(), false);
    let mut monitor = ClipboardMonitor::new();
    let mut world = World::new();

    let run = drive(Trigger::Periodic, &mut s, &mut monitor, &mut world);

    assert_eq!(run.events, vec![]);
    assert_eq!(run.failures, vec![]);
    assert_eq!(run.answers, 0);
    assert_eq!(world.sent_pulls, vec![]);
    assert_eq!(get_sync_status(&s), status(false, false, 0));
}

#[test]
fn two_pulls_against_an_unchanged_store() {
    let mut s = state();
    let mut monitor = ClipboardMonitor::new();
    let mut world = World::new();
    world.pulls.push(Ok((200, Some("7"), Some("text"), b"hello".to_vec())));
    world.pulls.push(Ok((200, Some("7"), Some("text"), b"hello".to_vec())));

    let first = drive(Trigger::Periodic, &mut s, &mut monitor, &mut world);
    let fingerprint = monitor.last_hash();
    let second = drive(Trigger::Periodic, &mut s, &mut monitor, &mut world);

    assert_eq!(first.events, vec![pulled("text")]);
    assert_eq!(second.events, vec![]);
    assert_eq!(second.failures, vec![]);
    assert_eq!(world.sent_pulls[1].index, "7");
    assert_eq!(world.written.len(), 1);
    assert_eq!(monitor.last_hash(), fingerprint);
    assert_eq!(get_sync_status(&s), status(true, false, 7));
}

#[test]
fn payload_of_unknown_type_ends_the_cycle_quietly() {
    let mut s = state();
    let mut monitor = ClipboardMonitor::new();
    let mut world = World::new();
    world.pulls.push(Ok((200, Some("7"), Some("file"), b"data".to_vec())));

    let run = drive(Trigger::Manual, &mut s, &mut monitor, &mut world);

    assert_eq!(run.events, vec![SyncEvent::Started, SyncEvent::Completed]);
    assert_eq!(run.failures, vec![]);
    assert_eq!(world.written, vec![]);
    assert_eq!(get_sync_status(&s), status(true, false, 0));
}

#[test]
fn malformed_payload_fails_the_cycle_and_keeps_the_cursor() {
    let mut s = state();
    let mut monitor = ClipboardMonitor::new();
    let mut world = World::new();
    world.pulls.push(Ok((200, Some("7"), Some("screenshot"), b"not a png".to_vec())));

    let run = drive(Trigger::Manual, &mut s, &mut monitor, &mut world);

    assert_eq!(run.events.len(), 3);
    assert!(matches!(run.events[1], SyncEvent::Error { .. }));
    assert!(matches!(run.failures[..], [SyncError::Malformed(ImageError::Decode(_))]));
    assert_eq!(world.written, vec![]);
    assert_eq!(get_sync_status(&s), status(true, false, 0));
    assert_eq!(monitor.last_hash(), 0);
}

#[test]
fn unreadable_body_fails_the_cycle() {
    let mut s = state();
    let mut monitor = ClipboardMonitor::new();
    let mut world = World::new();
    world.body_fails = true;
    world.pulls.push(Ok((200, Some("7"), Some("text"), Vec::new())));

    let run = drive(Trigger::Manual, &mut s, &mut monitor, &mut world);

    assert_eq!(
        run.events,
        vec![SyncEvent::Started, error("connection reset"), SyncEvent::Completed]
    );
    assert_eq!(get_sync_status(&s), status(true, false, 0));
}

#[test]
fn refused_write_fails_the_cycle_and_records_nothing() {
    let mut s = state();
    let mut monitor = ClipboardMonitor::new();
    let mut world = World::new();
    world.write_fails = true;
    world.pulls.push(Ok((200, Some("7"), Some("text"), b"hello".to_vec())));

    let run = drive(Trigger::Manual, &mut s, &mut monitor, &mut world);

    assert_eq!(run.events, vec![SyncEvent::Started, error("busy"), SyncEvent::Completed]);
    assert_eq!(
        run.failures,
        vec![SyncError::Clipboard(ClipboardError::Device("busy".to_string()))]
    );
    assert_eq!(get_sync_status(&s), status(true, false, 0));
    assert_eq!(monitor.last_hash(), 0);
}

#[test]
fn pulled_screenshot_is_written_as_pixels_and_recorded() {
    let picture = RawImage { width: 2, height: 1, bytes: vec![1, 2, 3, 4, 5, 6, 7, 8] };
    let mut s = state();
    let mut monitor = ClipboardMonitor::new();
    let mut world = World::new();
    world.pulls.push(Ok((200, Some("2"), Some("screenshot"), image_to_png(&picture).unwrap())));

    let run = drive(Trigger::Periodic, &mut s, &mut monitor, &mut world);

    assert_eq!(run.events, vec![pulled("screenshot")]);
    assert_eq!(world.written, vec![ClipboardWrite::Image(picture.clone())]);
    assert_eq!(
        monitor.last_hash(),
        hash_content(&ClipboardContent::Image(image_to_png(&picture).unwrap()))
    );
    assert_eq!(monitor.poll(read_clipboard(Some(picture), None)), None);
    assert_eq!(s.last_server_index, 2);
}

#[test]
fn cycle_takes_at_most_five_answers() {
    let mut s = state();
    let mut monitor = ClipboardMonitor::new();
    let mut world = World::new();
    world.clipboard = Ok(ClipboardContent::Image(vec![1, 2, 3]));
    world.pushes.push(Ok((201, None, None, Vec::new())));
    world.pulls.push(Ok((200, Some("1"), None, b"t".to_vec())));

    let run = drive(Trigger::Manual, &mut s, &mut monitor, &mut world);

    assert_eq!(run.answers, 5);
    assert_eq!(
        run.events,
        vec![SyncEvent::Started, pushed("screenshot"), pulled("text"), SyncEvent::Completed]
    );
    assert_eq!(world.sent_pushes[0].body, vec![1, 2, 3]);
    assert_eq!(get_sync_status(&s), status(true, false, 1));
}
