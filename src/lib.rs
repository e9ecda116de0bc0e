//! Platform layer of a tiling window manager: the facts and events that the
//! layout logic reads about windows, monitors and the process environment.

pub mod geometry;
pub mod error;
pub mod monitor;
pub mod window;
pub mod listener;
pub mod instance;
pub mod platform;

pub use error::{OsError, PlatformError, QueryFailure};
pub use geometry::Rect;
pub use instance::{LockOutcome, SingleInstance};
pub use listener::{EventListener, ListenerOp, ListenerState, PlatformEvent};
pub use monitor::NativeMonitor;
pub use platform::Platform;
pub use window::NativeWindow;
