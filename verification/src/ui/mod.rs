//! What the screen shows, as far as it can be worked out before anything
//! is drawn.

pub mod layout;
pub mod waveform;
pub mod widgets;
