//! Lifetime-safe bridging layer for an externally reference-counted
//! real-time-communication backend: ownership-tagged handle wrappers,
//! one-shot completion bridges, and multi-subscriber event fan-out.

pub mod completion;
pub mod display;
pub mod error;
pub mod fanout;
pub mod handle;
pub mod room;
pub mod track;

pub use display::display_sources;
pub use error::BridgeError;
pub use fanout::RemoteVideoTrackUpdate;
pub use handle::AcquireRule;
pub use handle::HandleWrapper;
pub use handle::NativeLayer;
pub use room::Room;
pub use track::LocalVideoTrack;
pub use track::MacOSDisplay;
pub use track::RemoteVideoTrack;
pub use track::Sid;
