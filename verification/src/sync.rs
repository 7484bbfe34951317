//! The sync coordinator: shared state, admission of sync cycles, and the
//! steps of the pull and push paths.
//!
//! A cycle is driven from outside: the caller sends what a step asks for and
//! hands the answer to the next step. At most one cycle is in flight.
//!
//! Every step that changes the state takes it by exclusive reference; that is
//! what makes the test-and-set of the in-flight flag atomic. Callers that
//! share the state between threads or tasks keep it behind a lock and hold
//! the lock for one step at a time, never across a request.

use crate::clipboard::{is_write_result, ClipboardContent, ClipboardError, ClipboardWrite};
use crate::image::{is_image_result, is_raster, png_to_image, ImageError};
use crate::protocol::{content_of, decimal_text, encode, endpoint, format_index, is_known_tag};
use crate::protocol::{lemma_tags_differ, text_equal, text_from_bytes};
use crate::protocol::{index_of, is_success, parse_index, payload_of, status_is_success, tag_of};
use crate::protocol::{PullRequest, PushRequest, ResponseHead, NOT_MODIFIED};
use vstd::prelude::*;
use vstd::slice::slice_to_vec;
use vstd::string::StringExecFns;
use vstd::utf8::encode_utf8;

verus! {

/// A snapshot of the coordinator's three flags.
#[derive(Debug, Clone, Copy, PartialEq, Eq)]
pub struct SyncStatus {
    pub auto_sync_enabled: bool,
    pub is_syncing: bool,
    pub last_server_index: u64,
}

impl SyncStatus {
    /// Test-and-set of the in-flight flag: the status afterwards, and whether
    /// the attempt was admitted.
    pub open spec fn try_begin(self) -> (SyncStatus, bool) {
        (SyncStatus { is_syncing: true, ..self }, !self.is_syncing)
    }

    /// The status once the cycle in flight has ended.
    pub open spec fn released(self) -> SyncStatus {
        SyncStatus { is_syncing: false, ..self }
    }

    /// The status with the auto-sync switch flipped.
    pub open spec fn toggled(self) -> SyncStatus {
        SyncStatus { auto_sync_enabled: !self.auto_sync_enabled, ..self }
    }

    /// The status with another last-known version.
    pub open spec fn with_index(self, index: u64) -> SyncStatus {
        SyncStatus { last_server_index: index, ..self }
    }
}

/// The coordinator's state: one instance, shared by every trigger.
#[derive(Debug)]
pub struct SyncState {
    pub auto_sync_enabled: bool,
    /// Version of the remote content last pulled or pushed; 0 before the first.
    pub last_server_index: u64,
    pub is_syncing: bool,
    pub server_url: String,
}

impl SyncState {
    /// The three flags of this state.
    pub open spec fn status(&self) -> SyncStatus {
        SyncStatus {
            auto_sync_enabled: self.auto_sync_enabled,
            is_syncing: self.is_syncing,
            last_server_index: self.last_server_index,
        }
    }

    /// The state at startup: nothing in flight, no version seen, auto-sync as
    /// the configuration says.
    pub fn new(server_url: String, auto_sync_enabled: bool) -> (state: SyncState)
        ensures
            state.status() == (SyncStatus {
                auto_sync_enabled,
                is_syncing: false,
                last_server_index: 0,
            }),
            state.server_url == server_url,
    {
        SyncState { auto_sync_enabled, last_server_index: 0, is_syncing: false, server_url }
    }
}

/// What the coordinator tells its observers.
#[derive(Debug, Clone, PartialEq, Eq)]
pub enum SyncEvent {
    Started,
    Pulled { content_type: String },
    Pushed { content_type: String },
    Error { message: String },
    Completed,
}

/// The mathematical content of a [`SyncEvent`].
pub enum SyncEventView {
    Started,
    Pulled { content_type: Seq<char> },
    Pushed { content_type: Seq<char> },
    Error { message: Seq<char> },
    Completed,
}

impl View for SyncEvent {
    type V = SyncEventView;

    open spec fn view(&self) -> SyncEventView {
        match self {
            SyncEvent::Started => SyncEventView::Started,
            SyncEvent::Pulled { content_type } => SyncEventView::Pulled {
                content_type: content_type@,
            },
            SyncEvent::Pushed { content_type } => SyncEventView::Pushed {
                content_type: content_type@,
            },
            SyncEvent::Error { message } => SyncEventView::Error { message: message@ },
            SyncEvent::Completed => SyncEventView::Completed,
        }
    }
}

/// Why a sync step did not go through. None of these is fatal.
#[derive(Debug, Clone, PartialEq, Eq)]
pub enum SyncError {
    /// Another sync is in flight.
    AlreadySyncing,
    /// The request did not complete; the text is the transport's.
    Transport(String),
    /// The store answered with a status outside the 2xx class.
    Server { status: u16 },
    /// The payload pulled is not what its type tag says.
    Malformed(ImageError),
    /// The clipboard gave or took no content.
    Clipboard(ClipboardError),
    /// The driver of a cycle answered an action that the cycle had not asked for.
    Unexpected,
}

impl SyncError {
    /// The text of [`SyncError::message`].
    pub open spec fn message_text(&self) -> Seq<char> {
        match self {
            SyncError::AlreadySyncing => "Sync already in progress"@,
            SyncError::Transport(text) => text@,
            SyncError::Server { status } => "Server error: "@ + decimal_text(*status as nat),
            SyncError::Malformed(e) => e.message_text(),
            SyncError::Clipboard(e) => e.message_text(),
            SyncError::Unexpected => "Unexpected answer in a sync cycle"@,
        }
    }

    /// A sentence for the user.
    pub fn message(&self) -> (text: String)
        ensures
            text@ == self.message_text(),
    {
        match self {
            SyncError::AlreadySyncing => String::from_str("Sync already in progress"),
            SyncError::Transport(text) => text.clone(),
            SyncError::Server { status } => String::from_str("Server error: ").concat(
                format_index(*status as u64).as_str(),
            ),
            SyncError::Malformed(e) => e.message(),
            SyncError::Clipboard(e) => e.message(),
            SyncError::Unexpected => String::from_str("Unexpected answer in a sync cycle"),
        }
    }
}

/// The event that reports a failed step of the manual path.
pub fn error_event(error: &SyncError) -> (event: SyncEvent)
    ensures
        event matches SyncEvent::Error { message } && message@ == error.message_text(),
{
    SyncEvent::Error { message: error.message() }
}

/// Flips the auto-sync switch and returns its new position.
pub fn toggle_auto_sync(state: &mut SyncState) -> (enabled: bool)
    ensures
        enabled == !old(state).auto_sync_enabled,
        final(state).status() == old(state).status().toggled(),
        final(state).server_url == old(state).server_url,
{
    let enabled = !state.auto_sync_enabled;
    state.auto_sync_enabled = enabled;
    enabled
}

/// A snapshot of the three flags.
pub fn get_sync_status(state: &SyncState) -> (status: SyncStatus)
    ensures
        status == state.status(),
{
    SyncStatus {
        auto_sync_enabled: state.auto_sync_enabled,
        is_syncing: state.is_syncing,
        last_server_index: state.last_server_index,
    }
}

/// Entry of the manual path: admits the sync unless one is in flight.
///
/// An admitted sync is announced by `Started`; the caller then pushes the
/// local content, pulls, and ends with [`complete_sync`], whatever the two
/// steps gave.
pub fn sync_now(state: &mut SyncState) -> (r: Result<SyncEvent, SyncError>)
    ensures
        final(state).status() == old(state).status().try_begin().0,
        final(state).server_url == old(state).server_url,
        old(state).is_syncing ==> r == Err::<SyncEvent, SyncError>(SyncError::AlreadySyncing),
        !old(state).is_syncing ==> r == Ok::<SyncEvent, SyncError>(SyncEvent::Started),
{
    if state.is_syncing {
        return Err(SyncError::AlreadySyncing);
    }
    state.is_syncing = true;
    Ok(SyncEvent::Started)
}

/// Entry of the periodic path: admits a pull-only cycle if auto-sync is on and
/// nothing is in flight; otherwise the tick is skipped and nothing changes.
///
/// An admitted cycle ends with [`end_sync`].
pub fn start_background_sync(state: &mut SyncState) -> (started: bool)
    ensures
        started == (old(state).auto_sync_enabled && !old(state).is_syncing),
        final(state).status() == if old(state).auto_sync_enabled {
            old(state).status().try_begin().0
        } else {
            old(state).status()
        },
        final(state).server_url == old(state).server_url,
{
    if !state.auto_sync_enabled || state.is_syncing {
        return false;
    }
    state.is_syncing = true;
    true
}

/// Ends the cycle in flight.
pub fn end_sync(state: &mut SyncState)
    ensures
        final(state).status() == old(state).status().released(),
        final(state).server_url == old(state).server_url,
{
    state.is_syncing = false;
}

/// Exit of the manual path: ends the cycle and announces `Completed`.
pub fn complete_sync(state: &mut SyncState) -> (event: SyncEvent)
    ensures
        final(state).status() == old(state).status().released(),
        final(state).server_url == old(state).server_url,
        event == SyncEvent::Completed,
{
    end_sync(state);
    SyncEvent::Completed
}

/// How many of `attempts` consecutive entries are admitted when no cycle ends
/// in between.
pub open spec fn admitted(status: SyncStatus, attempts: nat) -> nat
    decreases attempts,
{
    if attempts == 0 {
        0
    } else {
        (if status.try_begin().1 {
            1nat
        } else {
            0nat
        }) + admitted(status.try_begin().0, (attempts - 1) as nat)
    }
}

/// At most one sync is in flight: of any number of entries that find the
/// coordinator idle, one is admitted and every other is rejected; of entries
/// that find a sync in flight, none is admitted.
pub proof fn lemma_single_flight(status: SyncStatus, attempts: nat)
    ensures
        admitted(status, attempts) == if status.is_syncing || attempts == 0 {
            0nat
        } else {
            1nat
        },
    decreases attempts,
{
    if attempts > 0 {
        lemma_single_flight(status.try_begin().0, (attempts - 1) as nat);
    }
}

/// The request of a pull: the clipboard resource, with the last-known version
/// as cursor.
pub fn pull_request(state: &SyncState) -> (request: PullRequest)
    ensures
        request.url@ == state.server_url@ + "/api/v1/clipboard"@,
        request.index@ == decimal_text(state.last_server_index as nat),
        index_of(encode_utf8(request.index@)) == Some(state.last_server_index),
{
    proof {
        crate::protocol::lemma_parse_format(state.last_server_index);
    }
    PullRequest {
        url: endpoint(state.server_url.as_str()),
        index: format_index(state.last_server_index),
    }
}

/// What a pull is to do once the head of the response is known.
#[derive(Debug, Clone, PartialEq, Eq)]
pub enum PullStep {
    /// The store has nothing newer: the cycle ends here, nothing changes.
    UpToDate,
    /// Read the body; it is version `new_index` and travels as `content_type`.
    Fetch { new_index: u64, content_type: String },
}

/// The meaning of a pull response, over plain values.
pub enum PullPlan {
    UpToDate,
    Fetch { new_index: u64, content_type: Seq<char> },
    Refused { status: u16 },
}

/// The view of an optional header value.
pub open spec fn header_text(value: Option<String>) -> Option<Seq<char>> {
    match value {
        Some(text) => Some(text@),
        None => None,
    }
}

/// The version a response announces: 0 where the header is missing or
/// denotes none.
pub open spec fn announced_index(index: Option<Seq<char>>) -> u64 {
    match index {
        Some(text) => match index_of(encode_utf8(text)) {
            Some(value) => value,
            None => 0,
        },
        None => 0,
    }
}

/// The type tag a response announces: `text` where the header is missing.
pub open spec fn announced_type(content_type: Option<Seq<char>>) -> Seq<char> {
    match content_type {
        Some(text) => text,
        None => "text"@,
    }
}

/// What a pull response means to a client whose last-known version is
/// `current`.
///
/// "Not modified" means nothing new. Any other status outside the 2xx class
/// is a refusal. A success that announces version 0 or the version already
/// known is nothing new either; any other version is to be fetched.
pub open spec fn pull_plan(
    current: u64,
    status: u16,
    index: Option<Seq<char>>,
    content_type: Option<Seq<char>>,
) -> PullPlan {
    if status == NOT_MODIFIED {
        PullPlan::UpToDate
    } else if !is_success(status) {
        PullPlan::Refused { status }
    } else if announced_index(index) == 0 || announced_index(index) == current {
        PullPlan::UpToDate
    } else {
        PullPlan::Fetch {
            new_index: announced_index(index),
            content_type: announced_type(content_type),
        }
    }
}

/// Whether a step taken is the one that the plan calls for.
pub open spec fn follows_plan(plan: PullPlan, r: Result<PullStep, SyncError>) -> bool {
    match plan {
        PullPlan::UpToDate => r matches Ok(PullStep::UpToDate),
        PullPlan::Fetch { new_index, content_type } => r matches Ok(
            PullStep::Fetch { new_index: n, content_type: t },
        ) && n == new_index && t@ == content_type,
        PullPlan::Refused { status } => r matches Err(SyncError::Server { status: s }) && s
            == status,
    }
}

/// Classifies the head of a pull response. The state is only read: a pull
/// that finds nothing new leaves the last-known version as it was.
pub fn pull_from_server(state: &SyncState, head: &ResponseHead) -> (r: Result<PullStep, SyncError>)
    ensures
        follows_plan(
            pull_plan(
                state.last_server_index,
                head.status,
                header_text(head.index),
                header_text(head.content_type),
            ),
            r,
        ),
{
    if head.status == NOT_MODIFIED {
        return Ok(PullStep::UpToDate);
    }
    if !status_is_success(head.status) {
        return Err(SyncError::Server { status: head.status });
    }
    let new_index = match &head.index {
        Some(text) => match parse_index(text.as_str()) {
            Some(value) => value,
            None => 0,
        },
        None => 0,
    };
    if new_index == 0 || new_index == state.last_server_index {
        return Ok(PullStep::UpToDate);
    }
    let content_type = match &head.content_type {
        Some(text) => text.clone(),
        None => String::from_str("text"),
    };
    Ok(PullStep::Fetch { new_index, content_type })
}

/// A payload that was pulled: the content it stands for, and what the
/// clipboard is to be given for it.
#[derive(Debug, Clone, PartialEq, Eq)]
pub struct PulledPayload {
    pub content: ClipboardContent,
    pub write: ClipboardWrite,
}

/// What [`receive_payload`] answers for the body of a pull response and the
/// type tag it came with.
///
/// A payload that is content gives that content, and what [`write_clipboard`]
/// writes for it. A tag this version does not know gives nothing and is no
/// error. A screenshot that is no picture is malformed.
///
/// [`write_clipboard`]: crate::clipboard::write_clipboard
pub open spec fn is_payload_result(
    data: Seq<u8>,
    content_type: Seq<char>,
    r: Result<Option<PulledPayload>, SyncError>,
) -> bool {
    match r {
        Ok(Some(pulled)) => content_of(data, content_type) == Some(pulled.content@)
            && is_write_result(pulled.content@, Ok(pulled.write)),
        Ok(None) => !is_known_tag(content_type),
        Err(SyncError::Malformed(e)) => content_type == "screenshot"@ && is_image_result(
            data,
            Err(e),
        ),
        Err(_) => false,
    }
}

/// Turns the body of a pull response into content and into what is to be
/// written to the clipboard; a picture is decoded once for both.
pub fn receive_payload(content_type: &str, data: &[u8]) -> (r: Result<
    Option<PulledPayload>,
    SyncError,
>)
    ensures
        is_payload_result(data@, content_type@, r),
        r matches Ok(Some(pulled)) ==> (pulled.write matches ClipboardWrite::Image(img)
            ==> is_raster(img@)),
{
    proof {
        lemma_tags_differ();
    }
    if text_equal(content_type, "text") {
        let text = text_from_bytes(data);
        Ok(
            Some(
                PulledPayload {
                    content: ClipboardContent::Text(text.clone()),
                    write: ClipboardWrite::Text(text),
                },
            ),
        )
    } else if text_equal(content_type, "screenshot") {
        match png_to_image(data) {
            Ok(img) => Ok(
                Some(
                    PulledPayload {
                        content: ClipboardContent::Image(slice_to_vec(data)),
                        write: ClipboardWrite::Image(img),
                    },
                ),
            ),
            Err(e) => Err(SyncError::Malformed(e)),
        }
    } else {
        Ok(None)
    }
}

/// Closes a pull once the pulled content is on the clipboard and the write is
/// recorded with the change detector: stores the new version and announces
/// `Pulled`.
pub fn finish_pull(state: &mut SyncState, new_index: u64, content_type: String) -> (event:
    SyncEvent)
    ensures
        final(state).status() == old(state).status().with_index(new_index),
        final(state).server_url == old(state).server_url,
        event == (SyncEvent::Pulled { content_type }),
{
    state.last_server_index = new_index;
    SyncEvent::Pulled { content_type }
}

/// A response that says "not modified" means nothing new, whatever is known.
pub proof fn lemma_not_modified_is_noop(
    current: u64,
    index: Option<Seq<char>>,
    content_type: Option<Seq<char>>,
)
    ensures
        pull_plan(current, NOT_MODIFIED, index, content_type) == PullPlan::UpToDate,
{
}

/// Pulls settle: once the version that a response announces is the one
/// known, as it is after [`finish_pull`], the same response means nothing new.
pub proof fn lemma_second_pull_is_noop(
    current: u64,
    status: u16,
    index: Option<Seq<char>>,
    content_type: Option<Seq<char>>,
)
    requires
        pull_plan(current, status, index, content_type) is Fetch,
    ensures
        pull_plan(
            pull_plan(current, status, index, content_type)->new_index,
            status,
            index,
            content_type,
        ) == PullPlan::UpToDate,
{
}

/// The request of a push: the content's payload under its type tag.
pub fn push_to_server(server_url: &str, content: &ClipboardContent) -> (request: PushRequest)
    ensures
        request.url@ == server_url@ + "/api/v1/clipboard"@,
        request.content_type@ == tag_of(content@),
        request.body@ == payload_of(content@),
{
    let (body, content_type) = encode(content);
    PushRequest { url: endpoint(server_url), content_type, body }
}

/// The last-known version after a push that the store answered with
/// `status` and the given index header.
pub open spec fn index_after_push(current: u64, status: u16, index: Option<Seq<char>>) -> u64 {
    if !is_success(status) {
        current
    } else {
        match index {
            Some(text) => match index_of(encode_utf8(text)) {
                Some(value) => value,
                None => current,
            },
            None => current,
        }
    }
}

/// Closes a push with the head of the store's response.
///
/// A status outside the 2xx class is an error and changes nothing. On
/// success the version that the store announces, if it announces one,
/// becomes the last-known version, so that the next pull does not fetch what
/// was just pushed; `Pushed` is announced either way.
pub fn finish_push(state: &mut SyncState, head: &ResponseHead, content_type: &str) -> (r: Result<
    SyncEvent,
    SyncError,
>)
    ensures
        final(state).status() == old(state).status().with_index(
            index_after_push(old(state).last_server_index, head.status, header_text(head.index)),
        ),
        final(state).server_url == old(state).server_url,
        is_success(head.status) ==> (r matches Ok(SyncEvent::Pushed { content_type: t }) && t@
            == content_type@),
        !is_success(head.status) ==> (r matches Err(SyncError::Server { status }) && status
            == head.status),
{
    if !status_is_success(head.status) {
        return Err(SyncError::Server { status: head.status });
    }
    if let Some(text) = &head.index {
        if let Some(index) = parse_index(text.as_str()) {
            state.last_server_index = index;
        }
    }
    Ok(SyncEvent::Pushed { content_type: String::from_str(content_type) })
}

} // verus!
