//! Core of a desktop music-production helper backend.
//!
//! Two components make up the core: a scanner that walks a directory
//! snapshot and returns the audio files found in it with their metadata,
//! and a watcher that normalizes filesystem change notifications and
//! delivers them to a sink in order. A small presence module computes the
//! texts shown by an external chat-presence collaborator.
//!
//! All decision logic is verified here; the surrounding process does the
//! actual filesystem walking, subscription and IPC, and hands this crate
//! plain values.

use vstd::prelude::*;
use vstd::string::StringExecFns;

pub mod extensions;
pub mod presence;
pub mod scanner;
pub mod watcher;

pub use extensions::extension_of;
pub use extensions::is_recognized_extension;
pub use presence::ActivityTexts;
pub use presence::BeatDetails;
pub use presence::activity_texts;
pub use presence::resolve_client_id;
pub use presence::truncate_or_hash_image_key;
pub use scanner::AudioFile;
pub use scanner::FileMeta;
pub use scanner::FolderInfo;
pub use scanner::FsEntry;
pub use scanner::scan_from_entries;
pub use watcher::ChangeEvent;
pub use watcher::ChangeKind;
pub use watcher::RawEvent;
pub use watcher::WatchSession;
pub use watcher::kind_label;
pub use watcher::make_change_event;
pub use watcher::process_raw_events;

verus! {

/// The greeting shown by the demonstration command of the invocation
/// surface.
pub fn greet(name: &str) -> (r: String)
    ensures
        r@ == "Hello, "@ + name@ + "! You've been greeted from Rust!"@,
{
    "Hello, ".to_owned().concat(name).concat("! You've been greeted from Rust!")
}

} // verus!
