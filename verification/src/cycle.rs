//! A sync cycle as a state machine.
//!
//! A cycle is one run of the manual path (push, then pull) or of the periodic
//! path (pull only). The machine decides and the driver acts: every step
//! names one action, the driver performs it and hands what it gave to
//! [`SyncCycle::advance`], until the action is [`SyncAction::Done`].
//!
//! The driver performs [`SyncAction::Write`] and the `advance` that follows it
//! under the lock that guards the clipboard, so that no poll comes between
//! the write and its record.

use crate::clipboard::{fingerprint, hash_content, is_write_result};
use crate::clipboard::{ClipboardContent, ClipboardError, ClipboardMonitor, ClipboardWrite};
use crate::protocol::{content_of, is_known_tag};
use crate::protocol::{decimal_text, is_success, payload_of, tag_of};
use crate::protocol::{PullRequest, PushRequest, ResponseHead};
use crate::sync::{end_sync, error_event, finish_pull, finish_push, header_text, index_after_push};
use crate::sync::{is_payload_result, pull_from_server, pull_plan, pull_request, push_to_server};
use crate::sync::{receive_payload, start_background_sync, sync_now};
use crate::sync::{PullPlan, PullStep, SyncError, SyncEvent, SyncEventView, SyncState, SyncStatus};
use vstd::prelude::*;

verus! {

/// What sets a cycle off.
#[derive(Debug, Clone, Copy, PartialEq, Eq)]
pub enum Trigger {
    /// The user asked for a sync: push the local content, then pull.
    Manual,
    /// The interval elapsed: pull only, and only while auto-sync is on.
    Periodic,
}

/// Where a cycle stands: which answer it waits for.
#[derive(Debug, Clone, Copy, PartialEq, Eq)]
pub enum Phase {
    /// The cycle is over, or was never admitted.
    Idle,
    /// Waiting for the read of the local clipboard.
    LocalRead,
    /// Waiting for the head of the push response.
    PushSent,
    /// Waiting for the head of the pull response.
    PullSent,
    /// Waiting for the body of the pull response.
    BodyWanted,
    /// Waiting for the clipboard to take the pulled content.
    WriteWanted,
}

/// What the driver is to do next. It answers each action but `Done` with the
/// [`SyncInput`] named here.
#[derive(Debug, PartialEq, Eq)]
pub enum SyncAction {
    /// Read the clipboard; answer with `Clipboard`.
    ReadClipboard,
    /// Send the request; answer with `Head`.
    Push(PushRequest),
    /// Send the request; answer with `Head`.
    Pull(PullRequest),
    /// Read the body of the pull response; answer with `Body`.
    ReadBody,
    /// Write to the clipboard; answer with `Written`.
    Write(ClipboardWrite),
    /// Nothing: the cycle is over.
    Done,
}

/// What the driver's last action gave. A failed request or read carries the
/// transport's text.
#[derive(Debug, PartialEq, Eq)]
pub enum SyncInput {
    Clipboard(Result<ClipboardContent, ClipboardError>),
    Head(Result<ResponseHead, String>),
    Body(Result<Vec<u8>, String>),
    Written(Result<(), ClipboardError>),
}

/// One step of a cycle.
#[derive(Debug, PartialEq, Eq)]
pub struct SyncStep {
    /// Events to deliver, in this order, before the action is performed.
    pub events: Vec<SyncEvent>,
    /// Why the step that has just ended failed, if it did; for the log.
    pub failure: Option<SyncError>,
    pub action: SyncAction,
}

/// A sync cycle in progress.
#[derive(Debug)]
pub struct SyncCycle {
    trigger: Trigger,
    phase: Phase,
    push_type: &'static str,
    new_index: u64,
    content_type: String,
    pulled_hash: u64,
}

/// The mathematical content of a [`SyncCycle`].
pub struct CycleView {
    pub trigger: Trigger,
    pub phase: Phase,
    /// Type tag of the content being pushed; of use in `PushSent`.
    pub push_type: Seq<char>,
    /// Version being pulled; of use in `BodyWanted` and `WriteWanted`.
    pub new_index: u64,
    /// Type tag of the content being pulled; of use in the same phases.
    pub content_type: Seq<char>,
    /// Fingerprint of the content being written; of use in `WriteWanted`.
    pub pulled_hash: u64,
}

impl View for SyncCycle {
    type V = CycleView;

    closed spec fn view(&self) -> CycleView {
        CycleView {
            trigger: self.trigger,
            phase: self.phase,
            push_type: self.push_type@,
            new_index: self.new_index,
            content_type: self.content_type@,
            pulled_hash: self.pulled_hash,
        }
    }
}

/// The views of a run of events.
pub open spec fn event_views(events: Seq<SyncEvent>) -> Seq<SyncEventView> {
    events.map_values(|e: SyncEvent| e@)
}

/// The events that report a failed step: an `Error` on the manual path, none
/// on the periodic path.
pub open spec fn failure_events(trigger: Trigger, failure: Option<SyncError>) -> Seq<
    SyncEventView,
> {
    match (trigger, failure) {
        (Trigger::Manual, Some(e)) => seq![SyncEventView::Error { message: e.message_text() }],
        _ => seq![],
    }
}

/// The events that close a cycle: the report of its last step, and
/// `Completed` on the manual path.
pub open spec fn closing_events(trigger: Trigger, failure: Option<SyncError>) -> Seq<
    SyncEventView,
> {
    failure_events(trigger, failure) + match trigger {
        Trigger::Manual => seq![SyncEventView::Completed],
        Trigger::Periodic => seq![],
    }
}

/// How many answers a cycle in this phase can still take before it is over.
pub open spec fn steps_left(phase: Phase) -> nat {
    match phase {
        Phase::Idle => 0,
        Phase::WriteWanted => 1,
        Phase::BodyWanted => 2,
        Phase::PullSent => 3,
        Phase::PushSent => 4,
        Phase::LocalRead => 5,
    }
}

/// The step asks for the pull: the clipboard resource, with the last-known
/// version as cursor.
pub open spec fn asks_pull(
    after: CycleView,
    status: SyncStatus,
    server_url: Seq<char>,
    step: SyncStep,
) -> bool {
    &&& after.phase == Phase::PullSent
    &&& step.action matches SyncAction::Pull(request)
    &&& request.url@ == server_url + "/api/v1/clipboard"@
    &&& request.index@ == decimal_text(status.last_server_index as nat)
}

/// The step ends the cycle: nothing more is asked, the in-flight flag is
/// released, and the closing events follow the events `before`.
pub open spec fn ends(
    trigger: Trigger,
    after: CycleView,
    status: SyncStatus,
    status_after: SyncStatus,
    before: Seq<SyncEventView>,
    step: SyncStep,
) -> bool {
    &&& after.phase == Phase::Idle
    &&& status_after == status.released()
    &&& step.action == SyncAction::Done
    &&& event_views(step.events@) == before + closing_events(trigger, step.failure)
}

/// The step ends the cycle because the answer was not the one asked for.
pub open spec fn ends_unexpected(
    trigger: Trigger,
    after: CycleView,
    status: SyncStatus,
    status_after: SyncStatus,
    step: SyncStep,
) -> bool {
    &&& step.failure == Some(SyncError::Unexpected)
    &&& ends(trigger, after, status, status_after, seq![], step)
}

/// The step ends the cycle because the request or the read did not complete.
pub open spec fn ends_transport(
    trigger: Trigger,
    after: CycleView,
    status: SyncStatus,
    status_after: SyncStatus,
    text: Seq<char>,
    step: SyncStep,
) -> bool {
    &&& step.failure matches Some(SyncError::Transport(t))
    &&& t@ == text
    &&& ends(trigger, after, status, status_after, seq![], step)
}

/// The rule of `LocalRead`: content read is pushed; a clipboard that gives
/// none is no failure, and the cycle goes on to the pull.
pub open spec fn local_read_rule(
    before: CycleView,
    status: SyncStatus,
    server_url: Seq<char>,
    input: SyncInput,
    after: CycleView,
    status_after: SyncStatus,
    step: SyncStep,
) -> bool {
    match input {
        SyncInput::Clipboard(Ok(content)) => {
            &&& after.phase == Phase::PushSent
            &&& after.push_type == tag_of(content@)
            &&& status_after == status
            &&& step.failure is None
            &&& step.events@.len() == 0
            &&& step.action matches SyncAction::Push(request)
            &&& request.url@ == server_url + "/api/v1/clipboard"@
            &&& request.content_type@ == tag_of(content@)
            &&& request.body@ == payload_of(content@)
        },
        SyncInput::Clipboard(Err(_)) => {
            &&& status_after == status
            &&& step.failure is None
            &&& step.events@.len() == 0
            &&& asks_pull(after, status_after, server_url, step)
        },
        _ => ends_unexpected(before.trigger, after, status, status_after, step),
    }
}

/// The rule of `PushSent`: a push that went through is announced and its
/// version stored; one that did not is reported. The pull follows either way.
pub open spec fn push_sent_rule(
    before: CycleView,
    status: SyncStatus,
    server_url: Seq<char>,
    input: SyncInput,
    after: CycleView,
    status_after: SyncStatus,
    step: SyncStep,
) -> bool {
    match input {
        SyncInput::Head(Ok(head)) => {
            &&& status_after == status.with_index(
                index_after_push(
                    status.last_server_index,
                    head.status,
                    header_text(head.index),
                ),
            )
            &&& asks_pull(after, status_after, server_url, step)
            &&& if is_success(head.status) {
                &&& step.failure is None
                &&& event_views(step.events@) == seq![
                    SyncEventView::Pushed { content_type: before.push_type },
                ]
            } else {
                &&& step.failure == Some(SyncError::Server { status: head.status })
                &&& event_views(step.events@) == failure_events(before.trigger, step.failure)
            }
        },
        SyncInput::Head(Err(text)) => {
            &&& status_after == status
            &&& asks_pull(after, status_after, server_url, step)
            &&& step.failure matches Some(SyncError::Transport(t))
            &&& t@ == text@
            &&& event_views(step.events@) == failure_events(before.trigger, step.failure)
        },
        _ => ends_unexpected(before.trigger, after, status, status_after, step),
    }
}

/// The rule of `PullSent`: the head of the response decides whether there is
/// a body to read, as [`pull_plan`] says.
pub open spec fn pull_sent_rule(
    before: CycleView,
    status: SyncStatus,
    input: SyncInput,
    after: CycleView,
    status_after: SyncStatus,
    step: SyncStep,
) -> bool {
    match input {
        SyncInput::Head(Ok(head)) => match pull_plan(
            status.last_server_index,
            head.status,
            header_text(head.index),
            header_text(head.content_type),
        ) {
            PullPlan::UpToDate => {
                &&& step.failure is None
                &&& ends(before.trigger, after, status, status_after, seq![], step)
            },
            PullPlan::Fetch { new_index, content_type } => {
                &&& after.phase == Phase::BodyWanted
                &&& after.new_index == new_index
                &&& after.content_type == content_type
                &&& status_after == status
                &&& step.failure is None
                &&& step.events@.len() == 0
                &&& step.action == SyncAction::ReadBody
            },
            PullPlan::Refused { status: refused } => {
                &&& step.failure == Some(SyncError::Server { status: refused })
                &&& ends(before.trigger, after, status, status_after, seq![], step)
            },
        },
        SyncInput::Head(Err(text)) => ends_transport(
            before.trigger,
            after,
            status,
            status_after,
            text@,
            step,
        ),
        _ => ends_unexpected(before.trigger, after, status, status_after, step),
    }
}

/// The rule of `BodyWanted`: a payload that is content is to be written, and
/// the fingerprint of that content is kept for the record of the write; a
/// payload of an unknown type ends the cycle without failure; a malformed one
/// fails it.
pub open spec fn body_wanted_rule(
    before: CycleView,
    status: SyncStatus,
    input: SyncInput,
    after: CycleView,
    status_after: SyncStatus,
    step: SyncStep,
) -> bool {
    match input {
        SyncInput::Body(Ok(data)) => match step.action {
            SyncAction::Write(written) => {
                &&& content_of(data@, before.content_type) matches Some(content)
                &&& is_write_result(content, Ok(written))
                &&& after.pulled_hash == fingerprint(content)
                &&& after.phase == Phase::WriteWanted
                &&& after.new_index == before.new_index
                &&& after.content_type == before.content_type
                &&& status_after == status
                &&& step.failure is None
                &&& step.events@.len() == 0
            },
            _ => {
                &&& ends(before.trigger, after, status, status_after, seq![], step)
                &&& match step.failure {
                    None => !is_known_tag(before.content_type),
                    Some(e) => is_payload_result(data@, before.content_type, Err(e)),
                }
            },
        },
        SyncInput::Body(Err(text)) => ends_transport(
            before.trigger,
            after,
            status,
            status_after,
            text@,
            step,
        ),
        _ => ends_unexpected(before.trigger, after, status, status_after, step),
    }
}

/// The rule of `WriteWanted`: once the clipboard has taken the content, the
/// version pulled becomes the last-known version and `Pulled` is announced;
/// a clipboard that refuses fails the cycle and the version stays.
pub open spec fn write_wanted_rule(
    before: CycleView,
    status: SyncStatus,
    input: SyncInput,
    after: CycleView,
    status_after: SyncStatus,
    step: SyncStep,
) -> bool {
    match input {
        SyncInput::Written(Ok(_)) => {
            &&& step.failure is None
            &&& ends(
                before.trigger,
                after,
                status.with_index(before.new_index),
                status_after,
                seq![SyncEventView::Pulled { content_type: before.content_type }],
                step,
            )
        },
        SyncInput::Written(Err(e)) => {
            &&& step.failure == Some(SyncError::Clipboard(e))
            &&& ends(before.trigger, after, status, status_after, seq![], step)
        },
        _ => ends_unexpected(before.trigger, after, status, status_after, step),
    }
}

/// What [`SyncCycle::advance`] does to the coordinator and asks of the
/// driver, phase by phase.
pub open spec fn advance_rule(
    before: CycleView,
    status: SyncStatus,
    server_url: Seq<char>,
    input: SyncInput,
    after: CycleView,
    status_after: SyncStatus,
    step: SyncStep,
) -> bool {
    match before.phase {
        Phase::Idle => {
            &&& after.phase == Phase::Idle
            &&& status_after == status
            &&& step.action == SyncAction::Done
            &&& step.failure == Some(SyncError::Unexpected)
            &&& step.events@.len() == 0
        },
        Phase::LocalRead => local_read_rule(
            before,
            status,
            server_url,
            input,
            after,
            status_after,
            step,
        ),
        Phase::PushSent => push_sent_rule(
            before,
            status,
            server_url,
            input,
            after,
            status_after,
            step,
        ),
        Phase::PullSent => pull_sent_rule(before, status, input, after, status_after, step),
        Phase::BodyWanted => body_wanted_rule(before, status, input, after, status_after, step),
        Phase::WriteWanted => write_wanted_rule(before, status, input, after, status_after, step),
    }
}

/// The fingerprint that the change detector holds after a step: that of the
/// content pulled, once the write that the cycle asked for has gone through;
/// the one it held, after any other step.
pub open spec fn fingerprint_rule(before: CycleView, last: u64, input: SyncInput) -> u64 {
    match (before.phase, input) {
        (Phase::WriteWanted, SyncInput::Written(Ok(_))) => before.pulled_hash,
        _ => last,
    }
}

/// Appends an event; the views gain its view.
fn push_event(events: &mut Vec<SyncEvent>, event: SyncEvent)
    ensures
        event_views(final(events)@) == event_views(old(events)@).push(event@),
{
    events.push(event);
    assert(event_views(events@) =~= event_views(old(events)@).push(event@));
}

/// A run of one event.
fn one_event(event: SyncEvent) -> (events: Vec<SyncEvent>)
    ensures
        event_views(events@) == seq![event@],
{
    let mut events = Vec::new();
    push_event(&mut events, event);
    assert(event_views(events@) =~= seq![event@]);
    events
}

/// Appends the report of a failed step, where the path has one.
fn push_failure(trigger: Trigger, failure: &Option<SyncError>, events: &mut Vec<SyncEvent>)
    ensures
        event_views(final(events)@) == event_views(old(events)@) + failure_events(
            trigger,
            *failure,
        ),
{
    match (trigger, failure) {
        (Trigger::Manual, Some(e)) => {
            push_event(events, error_event(e));
        },
        _ => {},
    }
    assert(event_views(events@) =~= event_views(old(events)@) + failure_events(trigger, *failure));
}

/// The report of a failed step, where the path has one.
fn failure_report(trigger: Trigger, failure: &Option<SyncError>) -> (events: Vec<SyncEvent>)
    ensures
        event_views(events@) == failure_events(trigger, *failure),
{
    let mut events = Vec::new();
    push_failure(trigger, failure, &mut events);
    assert(event_views(events@) =~= failure_events(trigger, *failure));
    events
}

impl SyncCycle {
    /// What set the cycle off.
    pub fn trigger(&self) -> (trigger: Trigger)
        ensures
            trigger == self@.trigger,
    {
        self.trigger
    }

    /// Where the cycle stands.
    pub fn phase(&self) -> (phase: Phase)
        ensures
            phase == self@.phase,
    {
        self.phase
    }

    /// Goes on to the pull.
    fn pull(&mut self, state: &SyncState, events: Vec<SyncEvent>, failure: Option<SyncError>) -> (step:
        SyncStep)
        ensures
            final(self)@ == (CycleView { phase: Phase::PullSent, ..old(self)@ }),
            step.events == events,
            step.failure == failure,
            asks_pull(final(self)@, state.status(), state.server_url@, step),
    {
        self.phase = Phase::PullSent;
        SyncStep { events, failure, action: SyncAction::Pull(pull_request(state)) }
    }

    /// Ends the cycle.
    fn finish(
        &mut self,
        state: &mut SyncState,
        events: Vec<SyncEvent>,
        failure: Option<SyncError>,
    ) -> (step: SyncStep)
        ensures
            final(self)@ == (CycleView { phase: Phase::Idle, ..old(self)@ }),
            final(state).server_url == old(state).server_url,
            step.failure == failure,
            ends(
                old(self)@.trigger,
                final(self)@,
                old(state).status(),
                final(state).status(),
                event_views(events@),
                step,
            ),
    {
        let mut events = events;
        let ghost before = event_views(events@);
        push_failure(self.trigger, &failure, &mut events);
        match self.trigger {
            Trigger::Manual => {
                push_event(&mut events, SyncEvent::Completed);
            },
            Trigger::Periodic => {},
        }
        assert(event_views(events@) =~= before + closing_events(self.trigger, failure));
        end_sync(state);
        self.phase = Phase::Idle;
        SyncStep { events, failure, action: SyncAction::Done }
    }

    /// Starts a cycle, if the coordinator admits one.
    ///
    /// A manual cycle is refused while a sync is in flight: the step then
    /// carries `AlreadySyncing` and the cycle is over. An admitted one is
    /// announced by `Started` and begins with the read of the clipboard. A
    /// periodic cycle is skipped, without failure, while auto-sync is off or
    /// a sync is in flight; an admitted one begins with the pull.
    pub fn start(trigger: Trigger, state: &mut SyncState) -> (r: (SyncCycle, SyncStep))
        ensures
            r.0@.trigger == trigger,
            final(state).server_url == old(state).server_url,
            r.1.action == SyncAction::Done <==> r.0@.phase == Phase::Idle,
            match trigger {
                Trigger::Manual => if old(state).is_syncing {
                    &&& final(state).status() == old(state).status()
                    &&& r.0@.phase == Phase::Idle
                    &&& r.1.action == SyncAction::Done
                    &&& r.1.failure == Some(SyncError::AlreadySyncing)
                    &&& r.1.events@.len() == 0
                } else {
                    &&& final(state).status() == old(state).status().try_begin().0
                    &&& r.0@.phase == Phase::LocalRead
                    &&& r.1.action == SyncAction::ReadClipboard
                    &&& r.1.failure is None
                    &&& event_views(r.1.events@) == seq![SyncEventView::Started]
                },
                Trigger::Periodic => if old(state).auto_sync_enabled && !old(state).is_syncing {
                    &&& final(state).status() == old(state).status().try_begin().0
                    &&& asks_pull(r.0@, final(state).status(), final(state).server_url@, r.1)
                    &&& r.1.failure is None
                    &&& r.1.events@.len() == 0
                } else {
                    &&& final(state).status() == old(state).status()
                    &&& r.0@.phase == Phase::Idle
                    &&& r.1.action == SyncAction::Done
                    &&& r.1.failure is None
                    &&& r.1.events@.len() == 0
                },
            },
    {
        let mut cycle = SyncCycle {
            trigger,
            phase: Phase::Idle,
            push_type: "",
            new_index: 0,
            content_type: String::new(),
            pulled_hash: 0,
        };
        let idle = SyncStep { events: Vec::new(), failure: None, action: SyncAction::Done };
        match trigger {
            Trigger::Manual => match sync_now(state) {
                Ok(event) => {
                    cycle.phase = Phase::LocalRead;
                    (
                        cycle,
                        SyncStep {
                            events: one_event(event),
                            failure: None,
                            action: SyncAction::ReadClipboard,
                        },
                    )
                },
                Err(e) => (
                    cycle,
                    SyncStep { events: Vec::new(), failure: Some(e), action: SyncAction::Done },
                ),
            },
            Trigger::Periodic => {
                if start_background_sync(state) {
                    let step = cycle.pull(state, Vec::new(), None);
                    (cycle, step)
                } else {
                    (cycle, idle)
                }
            },
        }
    }

    /// Takes what the driver's last action gave and says what is next.
    ///
    /// Whatever the answer, a cycle comes nearer its end with every step, and
    /// once it is over the in-flight flag is released; on the manual path the
    /// last event is then `Completed`. An answer that is not the one asked
    /// for ends the cycle; a cycle that is over takes no answer and changes
    /// nothing.
    pub fn advance(
        &mut self,
        state: &mut SyncState,
        monitor: &mut ClipboardMonitor,
        input: SyncInput,
    ) -> (step: SyncStep)
        ensures
            final(self)@.trigger == old(self)@.trigger,
            final(state).server_url == old(state).server_url,
            advance_rule(
                old(self)@,
                old(state).status(),
                old(state).server_url@,
                input,
                final(self)@,
                final(state).status(),
                step,
            ),
            final(monitor)@ == fingerprint_rule(old(self)@, old(monitor)@, input),
            step.action == SyncAction::Done <==> final(self)@.phase == Phase::Idle,
            old(self)@.phase != Phase::Idle ==> steps_left(final(self)@.phase) < steps_left(
                old(self)@.phase,
            ),
            old(self)@.phase != Phase::Idle && final(self)@.phase == Phase::Idle ==> {
                &&& !final(state).is_syncing
                &&& old(self)@.trigger == Trigger::Manual ==> event_views(step.events@).len() > 0
                    && event_views(step.events@).last() == SyncEventView::Completed
            },
    {
        match self.phase {
            Phase::Idle => SyncStep {
                events: Vec::new(),
                failure: Some(SyncError::Unexpected),
                action: SyncAction::Done,
            },
            Phase::LocalRead => match input {
                SyncInput::Clipboard(Ok(content)) => {
                    let request = push_to_server(state.server_url.as_str(), &content);
                    self.push_type = request.content_type;
                    self.phase = Phase::PushSent;
                    SyncStep { events: Vec::new(), failure: None, action: SyncAction::Push(request) }
                },
                SyncInput::Clipboard(Err(_)) => self.pull(state, Vec::new(), None),
                _ => self.finish(state, Vec::new(), Some(SyncError::Unexpected)),
            },
            Phase::PushSent => match input {
                SyncInput::Head(Ok(head)) => match finish_push(state, &head, self.push_type) {
                    Ok(event) => self.pull(state, one_event(event), None),
                    Err(e) => {
                        let failure = Some(e);
                        let events = failure_report(self.trigger, &failure);
                        self.pull(state, events, failure)
                    },
                },
                SyncInput::Head(Err(text)) => {
                    let failure = Some(SyncError::Transport(text));
                    let events = failure_report(self.trigger, &failure);
                    self.pull(state, events, failure)
                },
                _ => self.finish(state, Vec::new(), Some(SyncError::Unexpected)),
            },
            Phase::PullSent => match input {
                SyncInput::Head(Ok(head)) => match pull_from_server(state, &head) {
                    Ok(PullStep::UpToDate) => self.finish(state, Vec::new(), None),
                    Ok(PullStep::Fetch { new_index, content_type }) => {
                        self.new_index = new_index;
                        self.content_type = content_type;
                        self.phase = Phase::BodyWanted;
                        SyncStep { events: Vec::new(), failure: None, action: SyncAction::ReadBody }
                    },
                    Err(e) => self.finish(state, Vec::new(), Some(e)),
                },
                SyncInput::Head(Err(text)) => self.finish(
                    state,
                    Vec::new(),
                    Some(SyncError::Transport(text)),
                ),
                _ => self.finish(state, Vec::new(), Some(SyncError::Unexpected)),
            },
            Phase::BodyWanted => match input {
                SyncInput::Body(Ok(data)) => match receive_payload(
                    self.content_type.as_str(),
                    data.as_slice(),
                ) {
                    Ok(Some(pulled)) => {
                        self.pulled_hash = hash_content(&pulled.content);
                        self.phase = Phase::WriteWanted;
                        SyncStep {
                            events: Vec::new(),
                            failure: None,
                            action: SyncAction::Write(pulled.write),
                        }
                    },
                    Ok(None) => self.finish(state, Vec::new(), None),
                    Err(e) => self.finish(state, Vec::new(), Some(e)),
                },
                SyncInput::Body(Err(text)) => self.finish(
                    state,
                    Vec::new(),
                    Some(SyncError::Transport(text)),
                ),
                _ => self.finish(state, Vec::new(), Some(SyncError::Unexpected)),
            },
            Phase::WriteWanted => match input {
                SyncInput::Written(Ok(_)) => {
                    monitor.record_fingerprint(self.pulled_hash);
                    let event = finish_pull(state, self.new_index, self.content_type.clone());
                    self.finish(state, one_event(event), None)
                },
                SyncInput::Written(Err(e)) => self.finish(
                    state,
                    Vec::new(),
                    Some(SyncError::Clipboard(e)),
                ),
                _ => self.finish(state, Vec::new(), Some(SyncError::Unexpected)),
            },
        }
    }
}

} // verus!
