//! Verified core of a keyboard-driven video clip editor and a channel-surfing
//! player: editing state machine, playback stepping, clip export planning,
//! channel navigation and integer pixel effects.

pub mod blocks;
pub mod editor;
pub mod effects;
pub mod image;
pub mod order;
pub mod paths;
pub mod player;
pub mod probe;
pub mod surfer;
pub mod timefmt;

pub use editor::{App, ControlActions, Mode};
pub use effects::VideoEffect;
pub use surfer::ChannelSurfer;
