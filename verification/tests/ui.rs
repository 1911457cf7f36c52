use digisurf::cli::{ends_with, CliArgs};
use digisurf::config::{config_source, AppConfig, ConfigSource, KeybindingsConfig, UiConfig};
use digisurf::keys::KeyCode;
use digisurf::layout::Rect;
use digisurf::marker::Marker;
use digisurf::state::{AppMode, AppState};
use digisurf::ui::widgets::bottom_text_box::BottomTextBoxWidget;
use digisurf::ui::widgets::fuzzy_finder::FuzzyFinderWidget;
use digisurf::ui::widgets::help_menu::HelpMenuWidget;
use digisurf::ui::widgets::marker_names::{MarkerLabel, MarkerNamesWidget};
use digisurf::ui::widgets::signal_list::{RowValue, SignalListWidget, SignalRow};
use digisurf::ui::widgets::time_ruler::{Tick, TimeRulerWidget};
use digisurf::ui::widgets::title_bar::TitleBarWidget;
use digisurf::ui::widgets::waveform::{time_to_column, BusLabel, WaveformWidget};
use digisurf::value::{Value, WaveValue};

fn state(time_start: u64, time_range: u64, max_time: u64) -> AppState {
    let mut state = AppState::new();
    state.time_start = time_start;
    state.time_range = time_range;
    state.waveform_data.max_time = max_time;
    state
}

#[test]
fn test_load_no_file_uses_default_config() {
    let config = AppConfig::default();
    assert_eq!(config.ui.signal_list_width, 20);
    assert_eq!(config.keybindings.zoom_in, KeyCode::Char('+'));
    assert_eq!(
        config_source(None, false, None, false),
        ConfigSource::BuiltIn
    );
}

#[test]
fn the_configuration_comes_from_the_file_that_is_named() {
    let named = Some("mine.toml".to_string());
    let usual = Some("usual.toml".to_string());
    assert_eq!(
        config_source(named.clone(), true, usual.clone(), true),
        ConfigSource::Override("mine.toml".to_string())
    );
    assert_eq!(
        config_source(named, false, usual.clone(), true),
        ConfigSource::MissingOverride("mine.toml".to_string())
    );
    assert_eq!(
        config_source(None, true, usual.clone(), true),
        ConfigSource::Usual("usual.toml".to_string())
    );
    assert_eq!(
        config_source(None, true, usual, false),
        ConfigSource::BuiltIn
    );
    let keys = KeybindingsConfig::default();
    assert_eq!(keys.enter_command_mode, KeyCode::Char(':'));
    assert_eq!(keys.zoom_out, KeyCode::Char('-'));
    assert_eq!(keys.zoom_full, KeyCode::Char('0'));
    assert_eq!(keys.delete_primary_marker, KeyCode::Delete);
    assert_eq!(keys.delete_secondary_marker, KeyCode::Backspace);
    assert_eq!(keys.enter_normal_mode, KeyCode::Esc);
    assert_eq!(keys.execute_command, KeyCode::Enter);
    let ui = UiConfig::default();
    assert_eq!(ui.marker_color_primary, "yellow");
    assert_eq!(ui.marker_color_secondary, "white");
}

#[test]
fn only_dumps_are_opened() {
    assert!(ends_with("trace.vcd", ".vcd"));
    assert!(ends_with(".vcd", ".vcd"));
    assert!(!ends_with("trace.vcd.gz", ".vcd"));
    assert!(!ends_with("vcd", ".vcd"));
    assert!(ends_with("anything", ""));
    let mut args = CliArgs {
        file_name: None,
        config_file: None,
    };
    assert_eq!(args.names_vcd_file(), None);
    args.file_name = Some("a/b.vcd".to_string());
    assert_eq!(args.names_vcd_file(), Some(true));
    args.file_name = Some("a/b.fst".to_string());
    assert_eq!(args.names_vcd_file(), Some(false));
}

#[test]
fn the_title_tells_the_window_and_the_markers() {
    let widget = TitleBarWidget::default();
    let mut s = state(10, 90, 1000);
    assert_eq!(widget.title(&s), "DigiSurf | Time: 10 to 100 of 1000");
    s.primary_marker = Some(40);
    assert_eq!(
        widget.title(&s),
        "DigiSurf | Time: 10 to 100 of 1000 | M1: 40"
    );
    s.secondary_marker = Some(25);
    assert_eq!(
        widget.title(&s),
        "DigiSurf | Time: 10 to 100 of 1000 | M1: 40 | M2: 25 | \u{394}: 15"
    );
    s.primary_marker = None;
    assert_eq!(
        widget.title(&s),
        "DigiSurf | Time: 10 to 100 of 1000 | M2: 25"
    );
    let s = state(u64::MAX, u64::MAX, 0);
    assert_eq!(
        widget.title(&s),
        "DigiSurf | Time: 18446744073709551615 to 36893488147419103230 of 0"
    );
}

#[test]
fn the_bottom_line_shows_the_command() {
    let widget = BottomTextBoxWidget::default();
    let mut s = state(0, 10, 10);
    assert_eq!(widget.title(&s), "Normal");
    assert_eq!(
        widget.text(&s),
        " ':' for command mode. :q, then <Enter> to quit. :h then <Enter> for help."
    );
    assert_eq!(widget.cursor(&s, 0, 80), None);
    s.mode = AppMode::Command;
    s.command_mode_state.input_buffer = "goto 5".to_string();
    s.command_mode_state.cursor_position = 4;
    assert_eq!(widget.title(&s), "Command");
    assert_eq!(widget.text(&s), ":goto 5");
    assert_eq!(widget.cursor(&s, 2, 80), Some(7));
    assert_eq!(widget.cursor(&s, 2, 8), Some(7));
    assert_eq!(widget.cursor(&s, 2, 7), None);
    assert_eq!(widget.cursor(&s, 9, 9), None);
    s.mode = AppMode::FuzzyFinder;
    assert_eq!(widget.title(&s), "FuzzyFinder");
}

#[test]
fn the_ruler_has_a_tick_at_every_round_time() {
    let widget = TimeRulerWidget::default();
    let s = state(0, 100, 100);
    assert_eq!(
        widget.ticks(&s, 50),
        vec![
            Tick { time: 0, column: 0 },
            Tick { time: 20, column: 10 },
            Tick { time: 40, column: 20 },
            Tick { time: 60, column: 30 },
            Tick { time: 80, column: 40 },
        ]
    );
    let s = state(15, 100, 1000);
    assert_eq!(
        widget.ticks(&s, 50),
        vec![
            Tick { time: 20, column: 2 },
            Tick { time: 40, column: 12 },
            Tick { time: 60, column: 22 },
            Tick { time: 80, column: 32 },
            Tick { time: 100, column: 42 },
        ]
    );
    let s = state(0, 100, 0);
    assert!(widget.ticks(&s, 50).is_empty());
    let s = state(u64::MAX - 5, 100, 7);
    assert!(widget.ticks(&s, 20).is_empty());
    let s = state(u64::MAX - 15, 100, 7);
    assert_eq!(
        widget.ticks(&s, 20),
        vec![Tick { time: u64::MAX - 15, column: 0 }]
    );
    assert_eq!(widget.label_start(10, 5), 8);
    assert_eq!(widget.label_start(1, 5), 0);
}

#[test]
fn the_signal_list_shows_values_at_the_marker() {
    let widget = SignalListWidget::default();
    let mut s = state(0, 50, 50);
    s.displayed_signals = ["a", "b", "c", "d"].iter().map(|n| n.to_string()).collect();
    s.waveform_data.values.insert(
        "a".to_string(),
        vec![
            (0, WaveValue::Binary(Value::V0)),
            (10, WaveValue::Binary(Value::V1)),
        ],
    );
    s.waveform_data.values.insert(
        "b".to_string(),
        vec![(5, WaveValue::Bus("1F".to_string()))],
    );
    s.waveform_data.values.insert(
        "c".to_string(),
        vec![(20, WaveValue::Bus("x0".to_string()))],
    );
    s.selected_signal = 1;
    let rows = widget.rows(&s, 9);
    assert_eq!(rows.len(), 4);
    assert!(rows.iter().all(|r| r.value == RowValue::Nothing));
    assert_eq!(rows[1].name, "b");
    assert!(rows[1].selected && !rows[0].selected);

    s.primary_marker = Some(10);
    assert_eq!(
        widget.rows(&s, 4),
        vec![
            SignalRow {
                index: 0,
                name: "a".to_string(),
                selected: false,
                value: RowValue::Transition("V0->V1".to_string()),
            },
            SignalRow {
                index: 1,
                name: "b".to_string(),
                selected: true,
                value: RowValue::Value("31".to_string()),
            },
        ]
    );
    s.signal_scroll_offset = 3;
    let rows = widget.rows(&s, 6);
    assert_eq!(rows.len(), 3);
    assert_eq!(rows[0].index, 1);
    assert_eq!(rows[1].value, RowValue::Nothing);
    assert_eq!(rows[2].value, RowValue::Nothing);
    widget.clamp_scroll(&mut s, 6);
    assert_eq!(s.signal_scroll_offset, 1);
    widget.clamp_scroll(&mut s, 100);
    assert_eq!(s.signal_scroll_offset, 0);
    assert!(widget.rows(&s, 1).is_empty());
    s.primary_marker = Some(25);
    assert_eq!(
        widget.value_of(&s, "c"),
        RowValue::Value("x0".to_string())
    );
}

#[test]
fn marker_names_make_room_for_each_other() {
    let widget = MarkerNamesWidget::default();
    let mut s = state(0, 100, 1000);
    s.saved_markers.push(Marker::new(40, "Marker2".to_string()));
    s.saved_markers.push(Marker::new(10, "Marker1".to_string()));
    assert_eq!(
        widget.labels(&s, 50),
        vec![
            MarkerLabel {
                column: 5,
                name: "Marker1".to_string(),
                shown: 7,
            },
            MarkerLabel {
                column: 20,
                name: "Marker2".to_string(),
                shown: 7,
            },
        ]
    );
    s.saved_markers.push(Marker::new(20, "Between".to_string()));
    s.saved_markers.push(Marker::new(98, "Edge".to_string()));
    s.saved_markers.push(Marker::new(100, "Behind".to_string()));
    s.saved_markers.push(Marker::new(101, "Gone".to_string()));
    s.saved_markers.push(Marker::new(21, "".to_string()));
    let labels = widget.labels(&s, 50);
    let seen: Vec<(u16, &str, usize)> = labels
        .iter()
        .map(|l| (l.column, l.name.as_str(), l.shown))
        .collect();
    assert_eq!(
        seen,
        vec![
            (5, "Marker1", 1),
            (10, "Between", 1),
            (10, "", 0),
            (20, "Marker2", 7),
            (49, "Edge", 1),
        ]
    );
}

#[test]
fn bus_texts_stand_in_the_middle_of_their_stretch() {
    let widget = WaveformWidget::default();
    let values = vec![
        (0, WaveValue::Bus("DEAD".to_string())),
        (50, WaveValue::Bus("BEEF".to_string())),
        (55, WaveValue::Bus("CAFE".to_string())),
        (150, WaveValue::Binary(Value::V0)),
    ];
    assert!(widget.is_bus(&values));
    assert!(!widget.is_bus(&vec![(0, WaveValue::Binary(Value::VX))]));
    assert_eq!(
        widget.bus_labels(&values, 0, 200, 80),
        vec![
            BusLabel {
                column: 8,
                text: "DEAD".to_string(),
            },
            BusLabel {
                column: 39,
                text: "CAFE".to_string(),
            },
        ]
    );
    assert_eq!(time_to_column(150, 0, 200, 80), 60);
    assert_eq!(time_to_column(1, 0, 3, 1), 0);
    assert_eq!(time_to_column(2, 0, 3, 1), 1);
    assert_eq!(time_to_column(3, 0, 6, 1), 1);
    assert_eq!(time_to_column(5, 10, 6, 1), 0);
    assert_eq!(time_to_column(5, 0, 0, 1), u16::MAX);
}

#[test]
fn markers_and_selections_are_placed_in_the_waveform() {
    let widget = WaveformWidget::default();
    let mut s = state(100, 50, 1000);
    assert_eq!(widget.marker_column(125, &s, 80), Some(40));
    assert_eq!(widget.marker_column(150, &s, 80), Some(80));
    assert_eq!(widget.marker_column(151, &s, 80), None);
    assert_eq!(widget.marker_column(99, &s, 80), None);

    assert_eq!(widget.drag_selection(&s), None);
    s.drag_start = Some((30, 0));
    s.drag_current = Some((12, 0));
    assert_eq!(widget.drag_selection(&s), None);
    s.is_dragging = true;
    assert_eq!(widget.drag_selection(&s), Some((12, 18)));
    s.drag_current = Some((31, 0));
    assert_eq!(widget.drag_selection(&s), None);
}

#[test]
fn popups_stand_in_the_middle() {
    let area = Rect {
        x: 0,
        y: 0,
        width: 80,
        height: 24,
    };
    assert_eq!(
        HelpMenuWidget::default().area(area),
        Rect {
            x: 5,
            y: 2,
            width: 70,
            height: 20
        }
    );
    assert_eq!(FuzzyFinderWidget::default().area(area), area);
    let mut s = state(0, 10, 10);
    s.help_menu_scroll = 30;
    HelpMenuWidget::default().clamp_scroll(&mut s, 32, 18);
    assert_eq!(s.help_menu_scroll, 14);
    HelpMenuWidget::default().clamp_scroll(&mut s, 10, 18);
    assert_eq!(s.help_menu_scroll, 0);
}

#[test]
fn the_finder_tells_what_is_chosen() {
    let widget = FuzzyFinderWidget::default();
    let mut s = state(0, 10, 10);
    let signals: Vec<String> = ["a", "b", "c"].iter().map(|n| n.to_string()).collect();
    s.fuzzy_finder_state.set_signals(signals.clone(), &signals[1..2]);
    s.fuzzy_finder_state.handle_input('b');
    assert_eq!(widget.query_text(&s), "> b");
    assert_eq!(widget.info(&s), "Selected: 1/3");
    assert!(widget.is_chosen(&s, 0));
    s.fuzzy_finder_state.handle_backspace();
    assert!(!widget.is_chosen(&s, 0));
    assert!(widget.is_chosen(&s, 1));
}
