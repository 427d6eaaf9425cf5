//! The state machine of a "Simon" memory game: a wheel of four coloured
//! wedges plays back a growing sequence of flashes, and the player repeats it
//! by clicking the wedges in order.

pub mod color;
pub mod game;
pub mod laws;
pub mod wheel;

pub use color::Color;
pub use game::{App, Effects, Msg, Phase, TimerCommand};
pub use wheel::WedgeView;
