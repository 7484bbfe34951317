//! Clipboard synchronisation engine.
//!
//! The crate holds the decisions of a clipboard sync client and none of its
//! devices: callers read and write the clipboard, talk to the remote store and
//! deliver events, and hand what they saw to the functions here.
//!
//! - [`clipboard`]: content, its fingerprint, and the change detector;
//! - [`image`]: pictures between the clipboard's pixels and PNG;
//! - [`protocol`]: what travels to and from the remote store;
//! - [`sync`]: the coordinator and the steps of pull and push;
//! - [`cycle`]: a whole sync cycle as a state machine over those steps;
//! - [`config`]: user preferences.

pub mod clipboard;
pub mod config;
pub mod cycle;
pub mod image;
pub mod protocol;
pub mod sync;

pub use clipboard::{hash_content, read_clipboard, write_clipboard};
pub use clipboard::{ClipboardContent, ClipboardError, ClipboardMonitor, ClipboardWrite};
pub use config::{AppConfig, Shortcuts, SyncTypes};
pub use cycle::{Phase, SyncAction, SyncCycle, SyncInput, SyncStep, Trigger};
pub use image::{image_to_png, png_to_image, ImageError, RawImage};
pub use protocol::{decode, encode, format_index, parse_index};
pub use protocol::{DecodeError, PullRequest, PushRequest, ResponseHead};
pub use sync::{complete_sync, end_sync, error_event, finish_pull, finish_push};
pub use sync::{get_sync_status, pull_from_server, pull_request, push_to_server, receive_payload};
pub use sync::{start_background_sync, sync_now, toggle_auto_sync};
pub use sync::{PullStep, SyncError, SyncEvent, SyncState, SyncStatus};
