use digisurf::commands::{find_signal, goto, help, marker, quit, zoom, zoomfull};
use digisurf::marker::Marker;
use digisurf::state::{AppMode, AppState};

fn get_state() -> AppState {
    let mut state = AppState::default();
    state.time_start = 0;
    state.time_range = 100;
    state.waveform_data.max_time = 1000;
    state
}

#[test]
fn test_findsignal_command() {
    let mut state = AppState::default();
    let result = find_signal::create().execute(&[], &mut state);
    assert!(result.is_ok());
    assert_eq!(result.unwrap(), String::new());
    assert_eq!(state.mode, AppMode::FuzzyFinder);
}

#[test]
fn test_goto_empty_args() {
    let command = goto::create();
    let mut state = get_state();
    let result = command.execute(&[], &mut state);
    assert!(result.is_err());
    assert_eq!(result.unwrap_err(), "Usage: goto <time>".to_string());
}

#[test]
fn test_goto_invalid_time() {
    let command = goto::create();
    let mut state = get_state();
    let result = command.execute(&["not_a_number"], &mut state);
    assert!(result.is_err());
    assert_eq!(result.unwrap_err(), "Invalid time format".to_string());
}

#[test]
fn test_goto_time_out_of_range() {
    let command = goto::create();
    let mut state = get_state();
    let result = command.execute(&[&"2000"], &mut state);
    assert!(result.is_err());
    assert_eq!(
        result.unwrap_err(),
        "Time out of range (0-1000)".to_string()
    );
}

#[test]
fn test_goto_valid_time_with_centering() {
    let command = goto::create();
    let mut state = get_state();
    let result = command.execute(&["500"], &mut state);
    assert!(result.is_ok());
    assert_eq!(result.unwrap(), "Moved to time 500".to_string());
    assert_eq!(state.time_start, 450);
}

#[test]
fn test_goto_near_beginning() {
    let command = goto::create();
    let mut state = get_state();
    let result = command.execute(&["30"], &mut state);
    assert!(result.is_ok());
    assert_eq!(state.time_start, 0);
}

#[test]
fn test_help_toggle() {
    let command = help::create();
    let mut state = AppState::default();
    state.show_help = false;

    let result = command.execute(&[], &mut state);
    assert!(result.is_ok());
    assert_eq!(result.unwrap(), "help".to_string());
    assert_eq!(state.show_help, true);

    let result = command.execute(&[], &mut state);
    assert!(result.is_ok());
    assert_eq!(result.unwrap(), "help".to_string());
    assert_eq!(state.show_help, false);
}

fn marker_state() -> AppState {
    let mut state = AppState::default();
    state.waveform_data.max_time = 1000;
    state
}

#[test]
fn test_marker_no_args_is_err() {
    let command = marker::create();
    let mut state = marker_state();
    let result = command.execute(&[], &mut state);
    assert!(result.is_err());
    assert_eq!(
        result.unwrap_err(),
        "Usage: marker add <name> [time] or marker remove <name>".to_string()
    );
}

#[test]
fn test_marker_invalid_subcommand_is_err() {
    let command = marker::create();
    let mut state = marker_state();
    let result = command.execute(&["invalid", "mymarker"], &mut state);
    assert!(result.is_err());
    assert_eq!(result.unwrap_err(), "Unknown subcommand.".to_string());
}

#[test]
fn test_marker_add_missing_name_is_err() {
    let command = marker::create();
    let mut state = marker_state();
    let result = command.execute(&["add"], &mut state);
    assert!(result.is_err());
    assert_eq!(
        result.unwrap_err(),
        "Usage: marker add <name> [time]".to_string()
    );
}

#[test]
fn test_marker_remove_missing_name_is_err() {
    let command = marker::create();
    let mut state = marker_state();
    let result = command.execute(&["remove"], &mut state);
    assert!(result.is_err());
    assert_eq!(
        result.unwrap_err(),
        "Usage: marker remove <name>".to_string()
    );
}

#[test]
fn test_marker_add_invalid_time_is_err() {
    let command = marker::create();
    let mut state = marker_state();
    let result = command.execute(&["add", "mymarker", "not_a_number"], &mut state);
    assert!(result.is_err());
    assert_eq!(result.unwrap_err(), "Invalid time format".to_string());
}

#[test]
fn test_marker_add_time_out_of_range_is_err() {
    let command = marker::create();
    let mut state = marker_state();
    let result = command.execute(&["add", "mymarker", "2000"], &mut state);
    assert!(result.is_err());
    assert_eq!(
        result.unwrap_err(),
        "Time out of range (0-1000)".to_string()
    );
}

#[test]
fn test_marker_add_success_with_explicit_time() {
    let command = marker::create();
    let mut state = marker_state();
    let result = command.execute(&["add", "mymarker", "500"], &mut state);
    assert!(result.is_ok());
    assert_eq!(
        result.unwrap(),
        "Added marker 'mymarker' at time 500".to_string()
    );

    let marker = state
        .saved_markers
        .iter()
        .find(|m| m.name == "mymarker")
        .unwrap();
    assert_eq!(marker.time, 500);
}

#[test]
fn test_marker_add_success_with_primary_marker() {
    let command = marker::create();
    let mut state = marker_state();
    state.primary_marker = Some(300);

    let result = command.execute(&["add", "mymarker"], &mut state);
    assert!(result.is_ok());
    assert_eq!(
        result.unwrap(),
        "Added marker 'mymarker' at time 300".to_string()
    );

    let marker = state
        .saved_markers
        .iter()
        .find(|m| m.name == "mymarker")
        .unwrap();
    assert_eq!(marker.time, 300);
}

#[test]
fn test_marker_add_no_primary_marker_is_err() {
    let command = marker::create();
    let mut state = marker_state();
    state.primary_marker = None;

    let result = command.execute(&["add", "mymarker"], &mut state);
    assert!(result.is_err());
    assert_eq!(
        result.unwrap_err(),
        "No time specified and primary marker not set".to_string()
    );
}

#[test]
fn test_marker_remove_nonexistent_is_err() {
    let command = marker::create();
    let mut state = marker_state();
    let result = command.execute(&["remove", "mymarker"], &mut state);
    assert!(result.is_err());
    assert_eq!(
        result.unwrap_err(),
        "No marker found with name 'mymarker'".to_string()
    );
}

#[test]
fn test_marker_remove_success() {
    let command = marker::create();
    let mut state = marker_state();
    state
        .saved_markers
        .push(Marker::new(500, "mymarker".to_string()));

    let result = command.execute(&["remove", "mymarker"], &mut state);
    assert!(result.is_ok());
    assert_eq!(
        result.unwrap(),
        "Removed marker 'mymarker' at time 500".to_string()
    );
    assert!(state.saved_markers.is_empty());
}

#[test]
fn test_marker_add_duplicate_is_err() {
    let command = marker::create();
    let mut state = marker_state();
    state
        .saved_markers
        .push(Marker::new(500, "mymarker".to_string()));

    let result = command.execute(&["add", "mymarker", "500"], &mut state);
    assert!(result.is_err());
    assert_eq!(
        result.unwrap_err(),
        "Marker 'mymarker' already exists".to_string()
    );
}

#[test]
fn test_marker_color_success() {
    let command = marker::create();
    let mut state = marker_state();
    state
        .saved_markers
        .push(Marker::new(500, "mymarker".to_string()));

    let result = command.execute(&["color", "mymarker", "blue"], &mut state);
    assert!(result.is_ok());
    assert_eq!(
        result.unwrap(),
        "Set color of marker 'mymarker' to 'blue'".to_string()
    );

    let marker = state
        .saved_markers
        .iter()
        .find(|m| m.name == "mymarker")
        .unwrap();
    assert_eq!(marker.color, ratatui::style::Color::Blue);
}

#[test]
fn test_marker_color_invalid_is_err() {
    let command = marker::create();
    let mut state = marker_state();
    state
        .saved_markers
        .push(Marker::new(500, "mymarker".to_string()));

    let result = command.execute(&["color", "mymarker", "not_a_color"], &mut state);
    assert!(result.is_err());
    assert_eq!(
        result.unwrap_err(),
        "Unknown color: not_a_color. Only ANSI colors are supported.".to_string()
    );
}

#[test]
fn test_quit_command() {
    let command = quit::create();
    let mut state = AppState::default();

    assert_eq!(state.exit, false);

    let result = command.execute(&[], &mut state);

    assert!(result.is_ok());
    assert_eq!(result.unwrap(), "Exiting digisurf...".to_string());
    assert_eq!(state.exit, true);
}

#[test]
fn test_quit_command_with_args() {
    let command = quit::create();
    let mut state = AppState::default();
    let result = command.execute(&["unused_arg"], &mut state);

    assert!(result.is_ok());
    assert_eq!(state.exit, true);
}

#[test]
fn test_zoom_empty_args_is_err() {
    let command = zoom::create();
    let mut state = get_state();
    let result = command.execute(&[], &mut state);
    assert!(result.is_err());
    assert_eq!(result.unwrap_err(), "Usage: zoom <factor>".to_string());
}

#[test]
fn test_zoom_invalid_factor_is_err() {
    let command = zoom::create();
    let mut state = get_state();
    let result = command.execute(&["not_a_number"], &mut state);
    assert!(result.is_err());
    assert_eq!(result.unwrap_err(), "Invalid zoom factor".to_string());
}

#[test]
fn test_zoom_zero_factor_is_err() {
    let command = zoom::create();
    let mut state = get_state();
    let result = command.execute(&["0"], &mut state);
    assert!(result.is_err());
    assert_eq!(result.unwrap_err(), "Invalid zoom factor".to_string());
}

#[test]
fn test_zoom_valid_factor() {
    let command = zoom::create();
    let mut state = get_state();
    state.time_start = 200;
    state.time_range = 200;
    let result = command.execute(&["2"], &mut state);
    assert!(result.is_ok());
    assert_eq!(result.unwrap(), "Zoomed to 1/2".to_string());
    assert_eq!(state.time_range, 500);
    assert_eq!(state.time_start, 50);
}

#[test]
fn test_zoom_near_beginning() {
    let command = zoom::create();
    let mut state = get_state();
    state.time_start = 0;
    state.time_range = 100;
    let result = command.execute(&["4"], &mut state);
    assert!(result.is_ok());
    assert_eq!(state.time_range, 250);
    assert_eq!(state.time_start, 0);
}

#[test]
fn test_zoomfull() {
    let command = zoomfull::create();
    let mut state = AppState::default();
    state.time_start = 100;
    state.time_range = 50;
    state.waveform_data.max_time = 1000;
    let result = command.execute(&[], &mut state);
    assert!(result.is_ok());
    assert_eq!(result.unwrap(), "Zoomed to full view".to_string());
    assert_eq!(state.time_start, 0);
    assert_eq!(state.time_range, 1000);
}

#[test]
fn numbers_are_read_and_written_in_base_ten() {
    let mut state = get_state();
    state.waveform_data.max_time = u64::MAX;
    assert_eq!(
        goto::goto(&["18446744073709551615"], &mut state),
        Ok("Moved to time 18446744073709551615".to_string())
    );
    assert_eq!(
        goto::goto(&["18446744073709551616"], &mut state),
        Err("Invalid time format".to_string())
    );
    assert_eq!(
        goto::goto(&["+007"], &mut state),
        Ok("Moved to time 7".to_string())
    );
    assert_eq!(
        goto::goto(&["0"], &mut state),
        Ok("Moved to time 0".to_string())
    );
    for bad in ["", "+", "-1", "1 ", "12a", "++1", "0x10"] {
        assert_eq!(
            goto::goto(&[bad], &mut state),
            Err("Invalid time format".to_string())
        );
    }
    state.waveform_data.max_time = 1090;
    assert_eq!(
        goto::goto(&["2000"], &mut state),
        Err("Time out of range (0-1090)".to_string())
    );
}

#[test]
fn markers_keep_their_order_and_their_colors() {
    let mut state = marker_state();
    assert!(marker::marker(&["a", "one", "10"], &mut state).is_ok());
    assert!(marker::marker(&["add", "two", "20"], &mut state).is_ok());
    assert!(marker::marker(&["a", "three", "30"], &mut state).is_ok());
    assert_eq!(state.saved_markers[0].color, ratatui::style::Color::Cyan);
    assert_eq!(
        marker::marker(&["c", "two", "LightRed"], &mut state),
        Ok("Set color of marker 'two' to 'LightRed'".to_string())
    );
    assert_eq!(state.saved_markers[1].color, ratatui::style::Color::LightRed);
    assert_eq!(state.saved_markers[0].color, ratatui::style::Color::Cyan);
    assert_eq!(
        marker::marker(&["color", "four", "red"], &mut state),
        Err("No marker found with name 'four'".to_string())
    );
    assert_eq!(
        marker::marker(&["color", "two"], &mut state),
        Err("Usage: marker color <name> <color>".to_string())
    );
    assert_eq!(
        marker::marker(&["rm", "one"], &mut state),
        Ok("Removed marker 'one' at time 10".to_string())
    );
    let names: Vec<&str> = state.saved_markers.iter().map(|m| m.name.as_str()).collect();
    assert_eq!(names, vec!["two", "three"]);
    assert_eq!(state.saved_markers[0].color, ratatui::style::Color::LightRed);
}
