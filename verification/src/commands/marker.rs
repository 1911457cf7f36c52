//! The command that saves markers under a name, removes them and colors
//! them.

use crate::command_mode::registry::{shares, texts, Command, SharedCommand};
use crate::commands::goto::out_of_range_message;
use crate::marker::{color_named, marker_names, marker_views, parse_color, Marker};
use crate::state::AppState;
use crate::text::{
    chars_of, decimal, fails_with, lemma_position, parse_u64, parsed_u64, position, push_decimal,
    push_str_chars, same_text, string_of, succeeds_with,
};
use ratatui::style::Color;
use std::rc::Rc;
use vstd::prelude::*;

verus! {

/// The command `marker add|remove|color ...`.
pub struct MarkerCommand;

/// The time that `marker add` saves a marker at, or the reason why it
/// saves none: the second argument if there is one, which has to be a time
/// within the trace, else the time of the primary marker.
pub open spec fn marker_time(args: Seq<Seq<char>>, before: AppState) -> Result<u64, Seq<char>> {
    if args.len() >= 2 {
        match parsed_u64(args[1]) {
            Some(t) => if t > before.waveform_data.max_time {
                Err(
                    "Time out of range (0-"@ + decimal(before.waveform_data.max_time as nat)
                        + ")"@,
                )
            } else {
                Ok(t)
            },
            None => Err("Invalid time format"@),
        }
    } else {
        match before.primary_marker {
            Some(t) => Ok(t),
            None => Err("No time specified and primary marker not set"@),
        }
    }
}

/// Whether `after` is `before` with other saved markers.
pub open spec fn only_markers_changed(before: AppState, after: AppState) -> bool {
    after == (AppState { saved_markers: after.saved_markers, ..before })
}

/// What `marker add <name> [time]` does.
///
/// Without a name it tells how it is used. Without a usable time it says
/// why. With a name that a saved marker has it says so. In these cases
/// the state stays. Else a marker of that name, at that time and in the
/// color of markers that were given none, is saved behind the others.
pub open spec fn add_outcome(
    args: Seq<Seq<char>>,
    before: AppState,
    after: AppState,
    result: Result<String, String>,
) -> bool {
    if args.len() == 0 {
        after == before && fails_with(result, "Usage: marker add <name> [time]"@)
    } else {
        match marker_time(args, before) {
            Err(reason) => after == before && fails_with(result, reason),
            Ok(time) => if position(marker_names(before.saved_markers@), args[0]) is Some {
                after == before && fails_with(result, "Marker '"@ + args[0] + "' already exists"@)
            } else {
                &&& only_markers_changed(before, after)
                &&& after.saved_markers@.len() == before.saved_markers@.len() + 1
                &&& marker_views(after.saved_markers@).drop_last() == marker_views(
                    before.saved_markers@,
                )
                &&& after.saved_markers@.last().time == time
                &&& after.saved_markers@.last().name@ == args[0]
                &&& color_named("cyan"@) == Some(after.saved_markers@.last().color)
                &&& succeeds_with(
                    result,
                    "Added marker '"@ + args[0] + "' at time "@ + decimal(time as nat),
                )
            },
        }
    }
}

/// What `marker remove <name>` does.
///
/// Without a name it tells how it is used, and with a name that no saved
/// marker has it says so; the state stays. Else the first saved marker of
/// that name is removed.
pub open spec fn remove_outcome(
    args: Seq<Seq<char>>,
    before: AppState,
    after: AppState,
    result: Result<String, String>,
) -> bool {
    if args.len() == 0 {
        after == before && fails_with(result, "Usage: marker remove <name>"@)
    } else {
        match position(marker_names(before.saved_markers@), args[0]) {
            Some(i) => {
                &&& only_markers_changed(before, after)
                &&& after.saved_markers@ == before.saved_markers@.remove(i)
                &&& succeeds_with(
                    result,
                    "Removed marker '"@ + args[0] + "' at time "@ + decimal(
                        before.saved_markers@[i].time as nat,
                    ),
                )
            },
            None => after == before && fails_with(
                result,
                "No marker found with name '"@ + args[0] + "'"@,
            ),
        }
    }
}

/// What `marker color <name> <color>` does.
///
/// Without both arguments it tells how it is used. With a second
/// argument that names no color it says so. With a name
/// that no saved marker has it says so. In these cases the state stays.
/// Else the first saved marker of that name takes the color.
pub open spec fn color_outcome(
    args: Seq<Seq<char>>,
    before: AppState,
    after: AppState,
    result: Result<String, String>,
) -> bool {
    if args.len() < 2 {
        after == before && fails_with(result, "Usage: marker color <name> <color>"@)
    } else {
        match color_named(args[1]) {
            None => after == before && fails_with(
                result,
                "Unknown color: "@ + args[1] + ". Only ANSI colors are supported."@,
            ),
            Some(color) => match position(marker_names(before.saved_markers@), args[0]) {
                Some(i) => {
                    &&& only_markers_changed(before, after)
                    &&& after.saved_markers@ == before.saved_markers@.update(
                        i,
                        Marker { color, ..before.saved_markers@[i] },
                    )
                    &&& succeeds_with(
                        result,
                        "Set color of marker '"@ + args[0] + "' to '"@ + args[1] + "'"@,
                    )
                },
                None => after == before && fails_with(
                    result,
                    "No marker found with name '"@ + args[0] + "'"@,
                ),
            },
        }
    }
}

/// What `marker` does: its first argument names what to do, and the
/// arguments behind it say to what. `add` and `a` save a marker, `remove`
/// and `rm` remove one, `color` and `c` color one.
pub open spec fn marker_outcome(
    args: Seq<Seq<char>>,
    before: AppState,
    after: AppState,
    result: Result<String, String>,
) -> bool {
    if args.len() == 0 {
        after == before && fails_with(
            result,
            "Usage: marker add <name> [time] or marker remove <name>"@,
        )
    } else if args[0] == "add"@ || args[0] == "a"@ {
        add_outcome(args.skip(1), before, after, result)
    } else if args[0] == "remove"@ || args[0] == "rm"@ {
        remove_outcome(args.skip(1), before, after, result)
    } else if args[0] == "color"@ || args[0] == "c"@ {
        color_outcome(args.skip(1), before, after, result)
    } else {
        after == before && fails_with(result, "Unknown subcommand."@)
    }
}

/// The place of the first saved marker with the name `name`.
fn marker_index(markers: &Vec<Marker>, name: &str) -> (r: Option<usize>)
    ensures
        match r {
            Some(i) => position(marker_names(markers@), name@) == Some(i as int) && i
                < markers@.len(),
            None => position(marker_names(markers@), name@) is None,
        },
{
    let ghost names = marker_names(markers@);
    let mut i: usize = 0;
    while i < markers.len()
        invariant
            i <= markers.len(),
            names == marker_names(markers@),
            forall|k: int| 0 <= k < i ==> names[k] != name@,
        decreases markers.len() - i,
    {
        assert(names[i as int] == markers@[i as int].name@);
        if same_text(markers[i].name.as_str(), name) {
            proof {
                lemma_position(names, name@);
            }
            return Some(i);
        }
        i += 1;
    }
    proof {
        lemma_position(names, name@);
    }
    None
}

/// A text made of `head`, `name` and `tail`.
fn quoted(head: &str, name: &str, tail: &str) -> (r: Vec<char>)
    ensures
        r@ == head@ + name@ + tail@,
{
    let mut message = chars_of(head);
    push_str_chars(&mut message, name);
    push_str_chars(&mut message, tail);
    message
}

/// Runs `marker add` on the arguments behind `add`.
pub fn add_marker(args: &[&str], state: &mut AppState) -> (r: Result<String, String>)
    ensures
        add_outcome(texts(args@), *old(state), *final(state), r),
{
    if args.len() == 0 {
        return Err(string_of(&chars_of("Usage: marker add <name> [time]")));
    }
    let name = args[0];
    let time = if args.len() >= 2 {
        match parse_u64(&chars_of(args[1])) {
            Some(t) => {
                if t > state.waveform_data.max_time {
                    return Err(out_of_range_message(state.waveform_data.max_time));
                }
                t
            },
            None => {
                return Err(string_of(&chars_of("Invalid time format")));
            },
        }
    } else {
        match state.primary_marker {
            Some(t) => t,
            None => {
                return Err(
                    string_of(&chars_of("No time specified and primary marker not set")),
                );
            },
        }
    };
    if marker_index(&state.saved_markers, name).is_some() {
        return Err(string_of(&quoted("Marker '", name, "' already exists")));
    }
    let ghost before = marker_views(state.saved_markers@);
    state.saved_markers.push(Marker::new(time, string_of(&chars_of(name))));
    assert(marker_views(state.saved_markers@).drop_last() =~= before);
    let mut message = quoted("Added marker '", name, "' at time ");
    push_decimal(&mut message, time);
    Ok(string_of(&message))
}

/// Runs `marker remove` on the arguments behind `remove`.
pub fn remove_marker(args: &[&str], state: &mut AppState) -> (r: Result<String, String>)
    ensures
        remove_outcome(texts(args@), *old(state), *final(state), r),
{
    if args.len() == 0 {
        return Err(string_of(&chars_of("Usage: marker remove <name>")));
    }
    let name = args[0];
    match marker_index(&state.saved_markers, name) {
        Some(index) => {
            proof {
                lemma_position(marker_names(state.saved_markers@), name@);
            }
            let marker = state.saved_markers.remove(index);
            let mut message = quoted("Removed marker '", marker.name.as_str(), "' at time ");
            push_decimal(&mut message, marker.time);
            Ok(string_of(&message))
        },
        None => Err(string_of(&quoted("No marker found with name '", name, "'"))),
    }
}

/// Runs `marker color` on the arguments behind `color`.
pub fn color_marker(args: &[&str], state: &mut AppState) -> (r: Result<String, String>)
    ensures
        color_outcome(texts(args@), *old(state), *final(state), r),
{
    if args.len() < 2 {
        return Err(string_of(&chars_of("Usage: marker color <name> <color>")));
    }
    let name = args[0];
    let color_text = args[1];
    match parse_color(color_text) {
        Ok(color) => set_marker_color(state, name, color_text, color),
        Err(_) => Err(
            string_of(&quoted("Unknown color: ", color_text, ". Only ANSI colors are supported.")),
        ),
    }
}

/// Gives the first saved marker with the name `name` the color `color`,
/// which `color_text` named. With a name that no saved marker has, the
/// state stays.
pub fn set_marker_color(state: &mut AppState, name: &str, color_text: &str, color: Color) -> (r:
    Result<String, String>)
    ensures
        match position(marker_names(old(state).saved_markers@), name@) {
            Some(i) => {
                &&& only_markers_changed(*old(state), *final(state))
                &&& final(state).saved_markers@ == old(state).saved_markers@.update(
                    i,
                    Marker { color, ..old(state).saved_markers@[i] },
                )
                &&& succeeds_with(
                    r,
                    "Set color of marker '"@ + name@ + "' to '"@ + color_text@ + "'"@,
                )
            },
            None => *final(state) == *old(state) && fails_with(
                r,
                "No marker found with name '"@ + name@ + "'"@,
            ),
        },
{
    match marker_index(&state.saved_markers, name) {
        Some(index) => {
            state.saved_markers[index].color = color;
            let mut message = quoted("Set color of marker '", name, "' to '");
            push_str_chars(&mut message, color_text);
            push_str_chars(&mut message, "'");
            Ok(string_of(&message))
        },
        None => Err(string_of(&quoted("No marker found with name '", name, "'"))),
    }
}

/// The arguments behind the first.
fn rest_of<'a, 'b>(args: &'a [&'b str]) -> (r: Vec<&'b str>)
    requires
        args@.len() > 0,
    ensures
        texts(r@) == texts(args@).skip(1),
{
    let mut r: Vec<&str> = Vec::new();
    let mut i: usize = 1;
    while i < args.len()
        invariant
            1 <= i <= args.len(),
            r@.len() == i - 1,
            forall|k: int| 0 <= k < i - 1 ==> r@[k]@ == args@[k + 1]@,
        decreases args.len() - i,
    {
        r.push(args[i]);
        i += 1;
    }
    r
}

/// Runs `marker` on its arguments.
pub fn marker(args: &[&str], state: &mut AppState) -> (r: Result<String, String>)
    ensures
        marker_outcome(texts(args@), *old(state), *final(state), r),
{
    if args.len() == 0 {
        return Err(
            string_of(&chars_of("Usage: marker add <name> [time] or marker remove <name>")),
        );
    }
    let what = args[0];
    let rest = rest_of(args);
    if same_text(what, "add") || same_text(what, "a") {
        add_marker(rest.as_slice(), state)
    } else if same_text(what, "remove") || same_text(what, "rm") {
        remove_marker(rest.as_slice(), state)
    } else if same_text(what, "color") || same_text(what, "c") {
        color_marker(rest.as_slice(), state)
    } else {
        Err(string_of(&chars_of("Unknown subcommand.")))
    }
}

impl Command<AppState> for MarkerCommand {
    open spec fn spec_name(&self) -> Seq<char> {
        "marker"@
    }

    open spec fn spec_aliases(&self) -> Seq<Seq<char>> {
        seq!["m"@]
    }

    open spec fn spec_description(&self) -> Seq<char> {
        "Add or remove saved markers with names"@
    }

    open spec fn outcome(
        &self,
        args: Seq<Seq<char>>,
        before: AppState,
        after: AppState,
        result: Result<String, String>,
    ) -> bool {
        marker_outcome(args, before, after, result)
    }

    fn name(&self) -> (r: &str) {
        "marker"
    }

    fn aliases(&self) -> (r: Vec<&str>) {
        let mut r: Vec<&str> = Vec::new();
        r.push("m");
        r
    }

    fn description(&self) -> (r: &str) {
        "Add or remove saved markers with names"
    }

    fn execute(&self, args: &[&str], state: &mut AppState) -> (r: Result<String, String>) {
        marker(args, state)
    }
}

/// The command `marker`, ready to be registered.
pub fn create() -> (r: SharedCommand<AppState>)
    ensures
        shares(r, MarkerCommand),
{
    let boxed: Box<dyn Command<AppState>> = Box::new(MarkerCommand);
    let r = Rc::new(boxed);
    r
}

} // verus!
