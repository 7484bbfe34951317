//! Clipboard content, its fingerprint, and local change detection.
//!
//! The device itself is the caller's: it reads and writes the clipboard under
//! its own lock and hands the outcome to the functions here.

use crate::image::{image_to_png, is_encodable_raster, is_image_result, is_png_result};
use crate::image::{is_raster, png_to_image, ImageError, RawImage, RawImageView};
use std::collections::hash_map::DefaultHasher;
use std::hash::Hasher;
use vstd::prelude::*;
use vstd::string::StringExecFns;
use vstd::std_specs::hash::DefaultHasherAdditionalSpecFns;
use vstd::utf8::encode_utf8;

verus! {

/// Milliseconds between two polls of the clipboard.
pub const POLL_INTERVAL_MS: u64 = 500;

/// What the clipboard can hold.
#[derive(Debug, Clone, PartialEq, Eq)]
pub enum ClipboardContent {
    Text(String),
    /// A picture, as a PNG file.
    Image(Vec<u8>),
}

/// The mathematical content of a [`ClipboardContent`].
pub enum ContentView {
    Text(Seq<char>),
    Image(Seq<u8>),
}

impl View for ClipboardContent {
    type V = ContentView;

    open spec fn view(&self) -> ContentView {
        match self {
            ClipboardContent::Text(text) => ContentView::Text(text@),
            ClipboardContent::Image(data) => ContentView::Image(data@),
        }
    }
}

/// The two byte strings a fingerprint is taken of: a tag for the kind, then
/// the payload (UTF-8 for text, the file for a picture).
pub open spec fn fingerprint_input(content: ContentView) -> Seq<Seq<u8>> {
    match content {
        ContentView::Text(text) => seq![encode_utf8("text"@), encode_utf8(text)],
        ContentView::Image(data) => seq![encode_utf8("image"@), data],
    }
}

/// The fingerprint of a content value: the digest that the standard library's
/// default hasher gives for the tag and the payload, written in that order.
pub open spec fn fingerprint(content: ContentView) -> u64 {
    DefaultHasher::spec_finish(fingerprint_input(content))
}

/// Digest of a tag and a payload, written to the hasher in that order.
fn hash_parts(tag: &str, payload: &[u8]) -> (hash: u64)
    ensures
        hash == DefaultHasher::spec_finish(seq![encode_utf8(tag@), payload@]),
{
    let mut hasher = DefaultHasher::new();
    hasher.write(tag.as_bytes());
    hasher.write(payload);
    assert(hasher@ =~= seq![encode_utf8(tag@), payload@]);
    hasher.finish()
}

/// Computes the fingerprint by which content is compared.
///
/// Equal content has equal fingerprints, in every call.
pub fn hash_content(content: &ClipboardContent) -> (hash: u64)
    ensures
        hash == fingerprint(content@),
{
    match content {
        ClipboardContent::Text(text) => hash_parts("text", text.as_str().as_bytes()),
        ClipboardContent::Image(data) => hash_parts("image", data.as_slice()),
    }
}

/// Why the clipboard gave or took no content.
#[derive(Debug, Clone, PartialEq, Eq)]
pub enum ClipboardError {
    /// The clipboard is empty or holds something that is neither text nor a picture.
    Empty,
    /// The picture on the clipboard, or the one meant for it, could not be converted.
    Image(ImageError),
    /// The device could not be reached or refused the operation; the text is the device's.
    Device(String),
}

impl ClipboardError {
    /// The text of [`ClipboardError::message`].
    pub open spec fn message_text(&self) -> Seq<char> {
        match self {
            ClipboardError::Empty => "Clipboard is empty or contains unsupported format"@,
            ClipboardError::Image(e) => e.message_text(),
            ClipboardError::Device(text) => text@,
        }
    }

    /// A sentence for the user.
    pub fn message(&self) -> (text: String)
        ensures
            text@ == self.message_text(),
    {
        match self {
            ClipboardError::Empty => String::from_str(
                "Clipboard is empty or contains unsupported format",
            ),
            ClipboardError::Image(e) => e.message(),
            ClipboardError::Device(text) => text.clone(),
        }
    }
}

/// What [`read_clipboard`] answers for what the device gave.
///
/// A picture wins over text and is delivered as PNG; if it cannot be encoded
/// the read fails, text or no text. Empty text counts as no content.
pub open spec fn is_read_result(
    image: Option<RawImageView>,
    text: Option<Seq<char>>,
    r: Result<ClipboardContent, ClipboardError>,
) -> bool {
    match image {
        Some(img) => match r {
            Ok(ClipboardContent::Image(file)) => is_png_result(img, Ok(file)),
            Ok(_) => false,
            Err(ClipboardError::Image(e)) => is_png_result(img, Err(e)),
            Err(_) => false,
        },
        None => match text {
            Some(t) if t.len() > 0 => r matches Ok(ClipboardContent::Text(s)) && s@ == t,
            _ => r == Err::<ClipboardContent, ClipboardError>(ClipboardError::Empty),
        },
    }
}

/// Chooses the content from what the device gave: `image` is its picture, if it
/// had one, and `text` its text, if it had no picture and had text.
///
/// A picture with pixels and four bytes for each is always delivered.
pub fn read_clipboard(image: Option<RawImage>, text: Option<String>) -> (r: Result<
    ClipboardContent,
    ClipboardError,
>)
    ensures
        is_read_result(
            match image {
                Some(img) => Some(img@),
                None => None,
            },
            match text {
                Some(t) => Some(t@),
                None => None,
            },
            r,
        ),
        image matches Some(img) ==> (r is Ok <==> is_encodable_raster(img@)),
{
    if let Some(img) = image {
        return match image_to_png(&img) {
            Ok(file) => Ok(ClipboardContent::Image(file)),
            Err(e) => Err(ClipboardError::Image(e)),
        };
    }
    if let Some(text) = text {
        if !text.as_str().is_empty() {
            return Ok(ClipboardContent::Text(text));
        }
    }
    Err(ClipboardError::Empty)
}

/// What the device is to be given.
#[derive(Debug, Clone, PartialEq, Eq)]
pub enum ClipboardWrite {
    Text(String),
    Image(RawImage),
}

/// The mathematical content of a [`ClipboardWrite`].
pub enum ClipboardWriteView {
    Text(Seq<char>),
    Image(RawImageView),
}

impl View for ClipboardWrite {
    type V = ClipboardWriteView;

    open spec fn view(&self) -> ClipboardWriteView {
        match self {
            ClipboardWrite::Text(text) => ClipboardWriteView::Text(text@),
            ClipboardWrite::Image(img) => ClipboardWriteView::Image(img@),
        }
    }
}

/// What [`write_clipboard`] answers for a content value.
pub open spec fn is_write_result(
    content: ContentView,
    r: Result<ClipboardWrite, ClipboardError>,
) -> bool {
    match content {
        ContentView::Text(text) => r matches Ok(ClipboardWrite::Text(s)) && s@ == text,
        ContentView::Image(data) => match r {
            Ok(ClipboardWrite::Image(img)) => is_image_result(data, Ok(img)),
            Ok(_) => false,
            Err(ClipboardError::Image(e)) => is_image_result(data, Err(e)),
            Err(_) => false,
        },
    }
}

/// Prepares content for the device: text as it is, a picture decoded from its
/// PNG file into four bytes for each pixel. Once the device has taken it, the
/// caller reports the write to [`ClipboardMonitor::record_write`].
pub fn write_clipboard(content: &ClipboardContent) -> (r: Result<ClipboardWrite, ClipboardError>)
    ensures
        is_write_result(content@, r),
        r matches Ok(ClipboardWrite::Image(img)) ==> is_raster(img@),
{
    match content {
        ClipboardContent::Text(text) => Ok(ClipboardWrite::Text(text.clone())),
        ClipboardContent::Image(data) => match png_to_image(data.as_slice()) {
            Ok(img) => Ok(ClipboardWrite::Image(img)),
            Err(e) => Err(ClipboardError::Image(e)),
        },
    }
}

/// Whether a poll that reads `content` reports a change, given the
/// fingerprint last observed.
pub open spec fn is_change(last: u64, content: ContentView) -> bool {
    fingerprint(content) != last
}

/// The change detector: the fingerprint of the content last known to be on
/// the clipboard, whether a poll saw it there or a write put it there.
#[derive(Debug)]
pub struct ClipboardMonitor {
    last_hash: u64,
}

impl View for ClipboardMonitor {
    type V = u64;

    closed spec fn view(&self) -> u64 {
        self.last_hash
    }
}

impl ClipboardMonitor {
    /// A detector that has observed nothing yet.
    pub fn new() -> (monitor: ClipboardMonitor)
        ensures
            monitor@ == 0,
    {
        ClipboardMonitor { last_hash: 0 }
    }

    /// The fingerprint last observed.
    pub fn last_hash(&self) -> (hash: u64)
        ensures
            hash == self@,
    {
        self.last_hash
    }

    /// One tick of the poller, given what the read of the clipboard gave.
    ///
    /// A failed read changes nothing. Otherwise the content's fingerprint is
    /// stored, and the content is handed back for notification exactly when
    /// that fingerprint differs from the one stored before.
    pub fn poll(&mut self, read: Result<ClipboardContent, ClipboardError>) -> (changed: Option<
        ClipboardContent,
    >)
        ensures
            match read {
                Ok(content) => {
                    &&& final(self)@ == fingerprint(content@)
                    &&& changed is Some <==> is_change(old(self)@, content@)
                    &&& changed matches Some(c) ==> c == content
                },
                Err(_) => final(self)@ == old(self)@ && changed is None,
            },
    {
        match read {
            Ok(content) => {
                let hash = hash_content(&content);
                if hash != self.last_hash {
                    self.last_hash = hash;
                    Some(content)
                } else {
                    None
                }
            },
            Err(_) => None,
        }
    }

    /// Records that `content` has just been written to the clipboard, so that
    /// the next poll does not take it for a local change.
    ///
    /// The fingerprint stored is that of the content written, taken from the
    /// content itself and not from a read of the clipboard.
    pub fn record_write(&mut self, content: &ClipboardContent)
        ensures
            final(self)@ == fingerprint(content@),
    {
        self.last_hash = hash_content(content);
    }

    /// Records a write by the fingerprint of the content written, for a caller
    /// that took the fingerprint before it gave the content away.
    pub fn record_fingerprint(&mut self, hash: u64)
        ensures
            final(self)@ == hash,
    {
        self.last_hash = hash;
    }
}

/// The reports that a run of polls gives: entry `i` tells whether the poll
/// that read `reads[i]` reported a change, starting from fingerprint `last`.
pub open spec fn changes(last: u64, reads: Seq<ContentView>) -> Seq<bool>
    decreases reads.len(),
{
    if reads.len() == 0 {
        seq![]
    } else {
        seq![is_change(last, reads[0])] + changes(fingerprint(reads[0]), reads.drop_first())
    }
}

/// A run of polls reports a change exactly where the fingerprint read differs
/// from the one read just before (for the first poll: from the one stored).
pub proof fn lemma_changes_compare_neighbours(last: u64, reads: Seq<ContentView>, i: int)
    requires
        0 <= i < reads.len(),
    ensures
        changes(last, reads).len() == reads.len(),
        changes(last, reads)[i] == (fingerprint(reads[i]) != if i == 0 {
            last
        } else {
            fingerprint(reads[i - 1])
        }),
    decreases reads.len(),
{
    lemma_changes_len(last, reads);
    if i > 0 {
        let rest = reads.drop_first();
        lemma_changes_compare_neighbours(fingerprint(reads[0]), rest, i - 1);
        lemma_changes_len(fingerprint(reads[0]), rest);
    }
}

/// A run of polls gives one report per read.
pub proof fn lemma_changes_len(last: u64, reads: Seq<ContentView>)
    ensures
        changes(last, reads).len() == reads.len(),
    decreases reads.len(),
{
    if reads.len() > 0 {
        lemma_changes_len(fingerprint(reads[0]), reads.drop_first());
    }
}

/// Reading the same content twice in a row reports no change the second time.
pub proof fn lemma_repeat_is_silent(last: u64, content: ContentView)
    ensures
        changes(last, seq![content, content])[1] == false,
{
    lemma_changes_compare_neighbours(last, seq![content, content], 1);
}

/// Echo suppression: once the write of a content value has been recorded,
/// the poll that reads that value reports no change, whatever was stored
/// before the write.
pub proof fn lemma_echo_suppressed(content: ContentView)
    ensures
        !is_change(fingerprint(content), content),
{
}

} // verus!
