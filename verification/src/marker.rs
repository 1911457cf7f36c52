//! Saved markers and their colors.

use ratatui::style::Color;
use vstd::prelude::*;

verus! {

/// `ratatui::style::Color`, a color of the terminal.
#[verifier::external_type_specification]
#[verifier::external_body]
pub struct ExColor(Color);

/// `ratatui::style::ParseColorError`, the error of a text that names no
/// color.
#[verifier::external_type_specification]
#[verifier::external_body]
pub struct ExParseColorError(ratatui::style::ParseColorError);

/// The color that a text names, if it names one.
pub uninterp spec fn color_named(name: Seq<char>) -> Option<Color>;

/// `Color::from_str` reads the name of a color in letters of either case,
/// an index or a hexadecimal color code.
#[verifier::external_body]
pub(crate) fn parse_color(name: &str) -> (r: Result<Color, ratatui::style::ParseColorError>)
    ensures
        match r {
            Ok(color) => color_named(name@) == Some(color),
            Err(_) => color_named(name@) is None,
        },
{
    name.parse::<Color>()
}

/// The color of a saved marker that was given none: `Color::Cyan`, the
/// color that the name `cyan` stands for.
#[verifier::external_body]
pub(crate) fn default_saved_marker_color() -> (r: Color)
    ensures
        color_named("cyan"@) == Some(r),
{
    Color::Cyan
}

/// A marker that was saved under a name.
pub struct Marker {
    pub time: u64,
    pub name: String,
    pub color: Color,
}

/// What a `Marker` holds, with its name as a sequence of characters.
pub ghost struct MarkerView {
    pub time: u64,
    pub name: Seq<char>,
    pub color: Color,
}

impl View for Marker {
    type V = MarkerView;

    open spec fn view(&self) -> MarkerView {
        MarkerView { time: self.time, name: self.name@, color: self.color }
    }
}

/// What a list of markers holds.
pub open spec fn marker_views(markers: Seq<Marker>) -> Seq<MarkerView> {
    Seq::new(markers.len(), |i: int| markers[i]@)
}

/// The names of a list of markers.
pub open spec fn marker_names(markers: Seq<Marker>) -> Seq<Seq<char>> {
    Seq::new(markers.len(), |i: int| markers[i].name@)
}

impl Marker {
    /// A marker at `time` with the name `name`, in the color of markers
    /// that were given none.
    pub fn new(time: u64, name: String) -> (r: Self)
        ensures
            r.time == time,
            r.name == name,
            color_named("cyan"@) == Some(r.color),
    {
        Marker { time, name, color: default_saved_marker_color() }
    }
}

} // verus!
