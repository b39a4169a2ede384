//! Cross-process clipboard exchange over a server-mediated selection
//! protocol: the protocol engine (atom registry, selection reader, selection
//! owner, change watcher) and the typed content model of the clipboard.
//!
//! Everything that talks to the display server is done by the caller, which
//! hands the engine plain values and performs the steps it answers with.

pub mod error;
pub mod atoms;
pub mod image_data;
pub mod common;
pub mod payload;
pub mod reader;
pub mod owner;
pub mod facade;
pub mod watcher;
pub mod laws;

pub use image::imageops::FilterType;
pub use error::ClipboardError;
pub use atoms::{Atoms, AtomCache, ByteOrder, parse_atom_list};
pub use common::{ClipboardContent, ClipboardHandler, ContentData, ContentFormat, RustImage, RustImageBuffer, RustImageData};
pub use facade::Clipboard;
pub use owner::{OwnerReply, SelectionOwner, check_ownership};
pub use payload::{ClipboardData, build_payload};
pub use reader::{PendingTransfer, ReadPhase, ReadStep, SelectionEvent};
pub use watcher::{ClipboardWatcher, ClipboardWatcherContext, WatchEvent, WatchStep, WatcherShutdown};
