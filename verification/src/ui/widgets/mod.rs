//! The parts of the screen.

pub mod bottom_text_box;
pub mod fuzzy_finder;
pub mod help_menu;
pub mod marker_names;
pub mod signal_list;
pub mod time_ruler;
pub mod title_bar;
pub mod waveform;
