//! Core logic of the xfw Wayland widget runtime: buffer geometry, clipboard
//! state, event-loop bookkeeping, input codes, file-event classification,
//! layer-shell and xdg window management, command-line parsing and the
//! renderer shell.

pub mod buffer;
pub mod cli;
pub mod clipboard;
pub mod error;
pub mod event;
pub mod event_loop;
pub mod file_watch;
pub mod input;
pub mod layout;
pub mod protocol;
pub mod render;
pub mod surface;
pub mod wayland;
pub mod xdg;

pub use error::{PlatformError, PlatformResult};
pub use event::{FdWatcher, PlatformEvent, PlatformEventHandler};
pub use event_loop::{EventLoop, Timer};
pub use file_watch::FileEvent;
pub use wayland::WaylandConnection;
