use digisurf::config::AppConfig;
use digisurf::input::App;
use digisurf::keys::{KeyCode, KeyEvent, MouseButton, MouseEvent, MouseEventKind};
use digisurf::layout::{AppLayout, Rect};
use digisurf::state::AppMode;
use digisurf::ui::layout::create_layout;
use digisurf::value::{Value, WaveValue};
use digisurf::vcd::parser::parse_vcd;

fn key(code: KeyCode) -> KeyEvent {
    KeyEvent::plain(code)
}

fn shift(code: KeyCode) -> KeyEvent {
    KeyEvent {
        code,
        shift: true,
        control: false,
    }
}

fn screen() -> AppLayout {
    AppLayout {
        time_ruler: Rect { x: 16, y: 0, width: 64, height: 1 },
        marker_names: Rect { x: 16, y: 1, width: 64, height: 1 },
        signal_list: Rect { x: 0, y: 2, width: 16, height: 15 },
        waveform: Rect { x: 16, y: 2, width: 64, height: 15 },
        command_bar: Rect { x: 0, y: 17, width: 80, height: 3 },
    }
}

fn mouse(kind: MouseEventKind, column: u16, row: u16) -> MouseEvent {
    MouseEvent {
        kind,
        column,
        row,
        shift: false,
    }
}

#[test]
fn test_load_vcd_file() {
    let mut app = App::with_config(AppConfig::default());

    let vcd_content = "
    $date November 11, 2023 $end
    $version Test VCD 1.0 $end
    $timescale 1ps $end
    $scope module test $end
    $var wire 1 # clk $end
    $var wire 1 $ reset $end
    $var wire 8 % data $end
    $upscope $end
    $enddefinitions $end
    $dumpvars
    0#
    1$
    b00000000 %
    $end
    #10
    1#
    #20
    0#
    0$
    b10101010 %
        ";
    app.state.load(parse_vcd(vcd_content));

    assert_eq!(app.state.waveform_data.signals.len(), 3);
    assert_eq!(app.state.waveform_data.max_time, 20);

    assert_eq!(app.state.time_start, 0);
    assert_eq!(app.state.time_range, 20);
}

#[test]
fn test_app_mode_transitions() {
    let mut app = App::with_config(AppConfig::default());

    assert_eq!(app.state.mode, AppMode::Normal);

    app.handle_input(key(app.state.config.keybindings.enter_command_mode));
    assert_eq!(app.state.mode, AppMode::Command);

    app.handle_command_input(key(app.state.config.keybindings.enter_normal_mode));
    assert_eq!(app.state.mode, AppMode::Normal);
}

#[test]
fn test_arrow_keys_with_empty_signal_list_do_not_panic() {
    let mut app = App::with_config(AppConfig::default());

    app.state.waveform_data.max_time = 1000;
    app.state.displayed_signals = vec![];
    app.state.selected_signal = 0;

    app.handle_input(key(KeyCode::Up));
    app.handle_input(key(KeyCode::Down));
    app.handle_input(key(KeyCode::Left));
    app.handle_input(key(KeyCode::Right));
}

#[test]
fn test_arrow_keys_up_down_signal_selection() {
    let mut app = App::with_config(AppConfig::default());

    app.state.displayed_signals = vec![
        "signal_1".to_string(),
        "signal_2".to_string(),
        "signal_3".to_string(),
    ];

    app.state.selected_signal = 0;

    app.handle_input(key(KeyCode::Down));
    assert_eq!(app.state.selected_signal, 1);

    app.handle_input(key(KeyCode::Down));
    assert_eq!(app.state.selected_signal, 2);

    app.handle_input(key(KeyCode::Down));
    assert_eq!(app.state.selected_signal, 2);

    app.handle_input(key(KeyCode::Up));
    assert_eq!(app.state.selected_signal, 1);

    app.handle_input(key(KeyCode::Up));
    assert_eq!(app.state.selected_signal, 0);

    app.handle_input(key(KeyCode::Up));
    assert_eq!(app.state.selected_signal, 0);
}

#[test]
fn test_mouse_signal_selection() {
    let mut app = App::with_config(AppConfig::default());
    for i in 0..5 {
        let signal_name = format!("signal_{}", i);
        app.state.waveform_data.signals.push(signal_name.clone());
        app.state.waveform_data.values.insert(
            signal_name,
            vec![
                (0, WaveValue::Binary(Value::V0)),
                (50, WaveValue::Binary(Value::V1)),
                (100, WaveValue::Binary(Value::V0)),
            ],
        );
    }
    app.state.displayed_signals = app.state.waveform_data.signals.clone();
    app.layout = create_layout(
        Rect { x: 0, y: 0, width: 80, height: 20 },
        &app.state.config,
    );

    for signal_index in vec![2usize, 1, 3, 0] {
        let y_position = app.layout.signal_list.y + (signal_index * 2) as u16 + 1;

        let mouse_event = mouse(
            MouseEventKind::Down(MouseButton::Left),
            app.layout.signal_list.x + 2,
            y_position,
        );

        let layout = app.layout;
        app.state.handle_mouse(mouse_event, &layout);

        assert_eq!(app.state.selected_signal, signal_index);
    }
}

#[test]
fn keys_move_the_window() {
    let mut app = App::with_config(AppConfig::default());
    app.state.waveform_data.max_time = 1000;
    app.state.time_start = 400;
    app.state.time_range = 200;

    app.handle_input(key(KeyCode::Left));
    assert_eq!((app.state.time_start, app.state.time_range), (350, 200));
    app.handle_input(key(KeyCode::Right));
    app.handle_input(key(KeyCode::Right));
    assert_eq!((app.state.time_start, app.state.time_range), (450, 200));
    app.handle_input(key(KeyCode::Char('+')));
    assert_eq!((app.state.time_start, app.state.time_range), (500, 100));
    app.handle_input(key(KeyCode::Char('-')));
    assert_eq!((app.state.time_start, app.state.time_range), (450, 200));
    app.handle_input(key(KeyCode::Char('0')));
    assert_eq!((app.state.time_start, app.state.time_range), (0, 1000));

    app.state.primary_marker = Some(5);
    app.state.secondary_marker = Some(6);
    app.handle_input(key(KeyCode::Delete));
    assert_eq!(app.state.primary_marker, None);
    assert_eq!(app.state.secondary_marker, Some(6));
    app.handle_input(key(KeyCode::Backspace));
    assert_eq!(app.state.secondary_marker, None);
    app.handle_input(key(KeyCode::F(5)));
    assert_eq!((app.state.time_start, app.state.time_range), (0, 1000));
}

#[test]
fn shifted_arrows_move_the_signal_and_the_list_scrolls() {
    let mut app = App::with_config(AppConfig::default());
    app.layout = screen();
    app.layout.waveform.height = 6;
    app.state.displayed_signals = ["a", "b", "c", "d", "e"]
        .iter()
        .map(|s| s.to_string())
        .collect();

    app.handle_input(shift(KeyCode::Down));
    assert_eq!(app.state.displayed_signals, vec!["b", "a", "c", "d", "e"]);
    assert_eq!(app.state.selected_signal, 1);
    assert_eq!(app.state.signal_scroll_offset, 0);

    app.handle_input(key(KeyCode::Down));
    app.handle_input(key(KeyCode::Down));
    assert_eq!(app.state.selected_signal, 3);
    assert_eq!(app.state.signal_scroll_offset, 1);
    app.handle_input(shift(KeyCode::Down));
    assert_eq!(app.state.displayed_signals, vec!["b", "a", "c", "e", "d"]);
    assert_eq!(app.state.signal_scroll_offset, 2);
    app.handle_input(shift(KeyCode::Down));
    assert_eq!(app.state.selected_signal, 4);

    for _ in 0..3 {
        app.handle_input(shift(KeyCode::Up));
    }
    assert_eq!(app.state.displayed_signals, vec!["b", "d", "a", "c", "e"]);
    assert_eq!(app.state.selected_signal, 1);
    assert_eq!(app.state.signal_scroll_offset, 1);

    app.state.selected_signal = 9;
    app.handle_input(shift(KeyCode::Up));
    assert_eq!(app.state.selected_signal, 9);
    app.handle_input(key(KeyCode::Up));
    assert_eq!(app.state.selected_signal, 8);
}

#[test]
fn clicks_place_markers_and_drags_zoom() {
    let mut app = App::with_config(AppConfig::default());
    app.layout = screen();
    let layout = app.layout;
    app.state.waveform_data.max_time = 640;
    app.state.time_start = 0;
    app.state.time_range = 640;

    app.state
        .handle_mouse(mouse(MouseEventKind::Down(MouseButton::Left), 26, 5), &layout);
    assert_eq!(app.state.drag_start, Some((10, 100)));
    assert!(!app.state.is_dragging);
    app.state
        .handle_mouse(mouse(MouseEventKind::Up(MouseButton::Left), 26, 5), &layout);
    assert_eq!(app.state.primary_marker, Some(100));
    assert_eq!(app.state.drag_start, None);
    assert_eq!(app.state.drag_current, None);

    let mut shifted = mouse(MouseEventKind::Down(MouseButton::Left), 36, 5);
    shifted.shift = true;
    app.state.handle_mouse(shifted, &layout);
    assert_eq!(app.state.secondary_marker, Some(200));
    assert_eq!(app.state.drag_start, None);

    app.state
        .handle_mouse(mouse(MouseEventKind::Down(MouseButton::Left), 26, 5), &layout);
    app.state
        .handle_mouse(mouse(MouseEventKind::Drag(MouseButton::Left), 28, 5), &layout);
    assert!(!app.state.is_dragging);
    app.state
        .handle_mouse(mouse(MouseEventKind::Drag(MouseButton::Left), 29, 5), &layout);
    assert!(app.state.is_dragging);
    app.state
        .handle_mouse(mouse(MouseEventKind::Drag(MouseButton::Left), 31, 5), &layout);
    app.state
        .handle_mouse(mouse(MouseEventKind::Up(MouseButton::Left), 31, 5), &layout);
    assert_eq!((app.state.time_start, app.state.time_range), (0, 640));
    assert_eq!(app.state.primary_marker, Some(100));
    assert!(!app.state.is_dragging);

    app.state
        .handle_mouse(mouse(MouseEventKind::Down(MouseButton::Left), 26, 5), &layout);
    app.state
        .handle_mouse(mouse(MouseEventKind::Drag(MouseButton::Left), 48, 5), &layout);
    assert_eq!(app.state.drag_current, Some((32, 320)));
    app.state
        .handle_mouse(mouse(MouseEventKind::Up(MouseButton::Left), 48, 5), &layout);
    assert_eq!((app.state.time_start, app.state.time_range), (100, 220));

    app.state
        .handle_mouse(mouse(MouseEventKind::Down(MouseButton::Left), 26, 5), &layout);
    app.state
        .handle_mouse(mouse(MouseEventKind::Moved, 5, 19), &layout);
    assert_eq!(app.state.drag_start, None);
}

#[test]
fn commands_run_from_the_command_line() {
    let mut app = App::with_config(AppConfig::default());
    app.state.waveform_data.max_time = 1000;
    app.state.time_range = 100;

    assert!(!app.handle_input(key(KeyCode::Char(':'))));
    for c in "goto 500".chars() {
        assert!(!app.handle_input(key(KeyCode::Char(c))));
    }
    assert_eq!(app.state.command_mode_state.input_buffer, "goto 500");
    assert!(app.handle_input(key(KeyCode::Enter)));
    assert_eq!(app.state.mode, AppMode::Normal);
    assert_eq!(app.state.time_start, 450);
    assert_eq!(
        app.state.command_mode_state.result_message,
        Some("Moved to time 500".to_string())
    );
    assert!(!app.state.command_mode_state.result_is_error);

    app.handle_input(key(KeyCode::Char(':')));
    assert_eq!(app.state.command_mode_state.result_message, None);
    assert!(!app.handle_input(key(KeyCode::Enter)));
    assert_eq!(app.state.mode, AppMode::Command);
    for c in "zf".chars() {
        app.handle_input(key(KeyCode::Char(c)));
    }
    assert!(app.handle_input(key(KeyCode::Enter)));
    assert_eq!((app.state.time_start, app.state.time_range), (0, 1000));

    app.handle_input(key(KeyCode::Char(':')));
    for c in "m add x 2000".chars() {
        app.handle_input(key(KeyCode::Char(c)));
    }
    assert!(app.handle_input(key(KeyCode::Enter)));
    assert!(app.state.command_mode_state.result_is_error);
    assert_eq!(
        app.state.command_mode_state.result_message,
        Some("Time out of range (0-1000)".to_string())
    );

    app.state.command_mode_state.expire_result(2);
    assert!(app.state.command_mode_state.result_message.is_some());
    app.state.command_mode_state.expire_result(3);
    assert!(app.state.command_mode_state.result_message.is_none());

    let names: Vec<&str> = app
        .command_mode
        .parser()
        .list_commands()
        .iter()
        .map(|c| c.0)
        .collect();
    assert_eq!(names, vec!["zoom", "zoomfull", "goto", "marker", "help", "quit"]);

    app.handle_input(key(KeyCode::Char(':')));
    for c in "q".chars() {
        app.handle_input(key(KeyCode::Char(c)));
    }
    app.handle_input(key(KeyCode::Enter));
    assert!(app.state.exit);
}

#[test]
fn the_screen_is_cut_into_its_parts() {
    let whole = Rect { x: 0, y: 0, width: 80, height: 20 };
    assert_eq!(create_layout(whole, &AppConfig::default()), screen());

    let mut config = AppConfig::default();
    config.ui.signal_list_width = 50;
    let layout = create_layout(Rect { x: 10, y: 5, width: 40, height: 10 }, &config);
    assert_eq!(layout.command_bar, Rect { x: 10, y: 12, width: 40, height: 3 });
    assert_eq!(layout.time_ruler, Rect { x: 30, y: 5, width: 20, height: 1 });
    assert_eq!(layout.marker_names, Rect { x: 30, y: 6, width: 20, height: 1 });
    assert_eq!(layout.signal_list, Rect { x: 10, y: 7, width: 20, height: 5 });
    assert_eq!(layout.waveform, Rect { x: 30, y: 7, width: 20, height: 5 });

    config.ui.signal_list_width = 100;
    let layout = create_layout(whole, &config);
    assert_eq!(layout.signal_list, Rect { x: 0, y: 2, width: 80, height: 15 });
    assert_eq!(layout.waveform, Rect { x: 80, y: 2, width: 0, height: 15 });

    let layout = create_layout(Rect { x: 0, y: 0, width: 0, height: 0 }, &config);
    assert_eq!(layout.command_bar, Rect { x: 0, y: 0, width: 0, height: 0 });
}
