use digisurf::config::AppConfig;
use digisurf::fuzzy_finder::state::{rank, FuzzyFinderState};
use digisurf::fuzzy_finder::FuzzyFinderStateAccess;
use digisurf::input::{App, Event};
use digisurf::keys::{KeyCode, KeyEvent};
use digisurf::state::AppMode;
use digisurf::value::{Value, WaveValue};

#[test]
fn test_fuzzy_finder_filtering() {
    let mut state = FuzzyFinderState::default();

    let signals = vec![
        "test_signal_1".to_string(),
        "test_signal_2".to_string(),
        "another_signal".to_string(),
        "control_pin".to_string(),
    ];

    state.set_signals(signals, &[]);

    assert_eq!(state.filtered_signals.len(), 4);

    state.query = "test".to_string();
    state.update_filtered_signals();
    assert_eq!(state.filtered_signals.len(), 2);
    assert!(state
        .filtered_signals
        .contains(&"test_signal_1".to_string()));
    assert!(state
        .filtered_signals
        .contains(&"test_signal_2".to_string()));

    state.query = "tsg".to_string();
    state.update_filtered_signals();
    assert!(state.filtered_signals.len() > 0);

    state.query = "".to_string();
    state.update_filtered_signals();

    state.list_state.select(Some(0));
    state.toggle_selected_signal();
    assert_eq!(state.selected_signals.len(), 1);

    state.select_all();
    assert_eq!(state.selected_signals.len(), 4);

    state.clear_selection();
    assert_eq!(state.selected_signals.len(), 0);
}

#[test]
fn test_fuzzy_finder_navigation() {
    let mut state = FuzzyFinderState::default();

    let signals = vec![
        "signal1".to_string(),
        "signal2".to_string(),
        "signal3".to_string(),
    ];

    state.set_signals(signals, &[]);

    assert_eq!(state.list_state.selected(), Some(0));

    state.select_next();
    assert_eq!(state.list_state.selected(), Some(1));

    state.select_previous();
    assert_eq!(state.list_state.selected(), Some(0));

    state.select_previous();
    assert_eq!(state.list_state.selected(), Some(2));

    state.select_next();
    assert_eq!(state.list_state.selected(), Some(0));
}

#[test]
fn test_fuzzy_finder_maintains_signal_order() {
    let mut app = App::with_config(AppConfig::default());

    app.state.waveform_data.signals = vec![
        "first_signal".to_string(),
        "middle_signal".to_string(),
        "last_signal".to_string(),
    ];

    app.state.waveform_data.values.insert(
        "first_signal".to_string(),
        vec![(0, WaveValue::Binary(Value::V0))],
    );
    app.state.waveform_data.values.insert(
        "middle_signal".to_string(),
        vec![(0, WaveValue::Binary(Value::V1))],
    );
    app.state.waveform_data.values.insert(
        "last_signal".to_string(),
        vec![(0, WaveValue::Binary(Value::V0))],
    );

    app.state.mode = AppMode::FuzzyFinder;
    let signals = app.state.waveform_data.signals.clone();
    app.state.fuzzy_finder_state_mut().set_signals(signals, &[]);

    app.state
        .fuzzy_finder_state_mut()
        .list_state
        .select(Some(2));
    app.state.fuzzy_finder_state_mut().toggle_selected_signal();

    app.state
        .fuzzy_finder_state_mut()
        .list_state
        .select(Some(0));
    app.state.fuzzy_finder_state_mut().toggle_selected_signal();

    app.state
        .handle_fuzzy_finder_input(KeyEvent::plain(KeyCode::Enter));

    assert_eq!(app.state.displayed_signals.len(), 2);
    assert_eq!(app.state.displayed_signals[0], "first_signal");
    assert_eq!(app.state.displayed_signals[1], "last_signal");

    assert_eq!(app.state.mode, AppMode::Normal);
}

#[test]
fn the_best_match_comes_first_and_ties_keep_their_order() {
    let mut state = FuzzyFinderState::default();
    let signals: Vec<String> = ["top.cpu.clk", "clk", "top.clk", "reset", "clk", "c_l_k"]
        .iter()
        .map(|s| s.to_string())
        .collect();
    state.set_signals(signals.clone(), &signals[3..4]);
    assert_eq!(state.selected_signals, vec!["reset".to_string()]);
    assert_eq!(state.filtered_signals, signals);

    for c in "clk".chars() {
        state.handle_input(c);
    }
    assert_eq!(state.query, "clk");
    assert_eq!(state.filtered_signals.len(), 5);
    assert_eq!(state.filtered_signals[0], "clk");
    assert_eq!(state.filtered_signals[1], "clk");
    assert!(!state.filtered_signals.contains(&"reset".to_string()));
    assert_eq!(state.list_state.selected(), Some(0));

    state.list_state.select(Some(4));
    state.handle_input('z');
    assert!(state.filtered_signals.is_empty());
    assert_eq!(state.list_state.selected(), None);
    state.handle_backspace();
    assert_eq!(state.query, "clk");
    assert_eq!(state.filtered_signals.len(), 5);
    assert_eq!(state.list_state.selected(), Some(0));
    for _ in 0..4 {
        state.handle_backspace();
    }
    assert_eq!(state.query, "");
    assert_eq!(state.filtered_signals, signals);
}

#[test]
fn choices_are_a_set() {
    let mut state = FuzzyFinderState::default();
    let signals: Vec<String> = ["a", "b", "a", "c"].iter().map(|s| s.to_string()).collect();
    state.set_signals(signals.clone(), &signals);
    assert_eq!(state.get_selected_signals(), vec!["a", "b", "c"]);
    state.list_state.select(Some(2));
    state.toggle_selected_signal();
    assert_eq!(state.get_selected_signals(), vec!["b", "c"]);
    state.toggle_selected_signal();
    assert_eq!(state.get_selected_signals(), vec!["b", "c", "a"]);
    state.list_state.select(Some(9));
    state.toggle_selected_signal();
    assert_eq!(state.get_selected_signals(), vec!["b", "c", "a"]);
    state.clear_selection();
    state.select_all();
    assert_eq!(state.get_selected_signals(), vec!["a", "b", "c"]);
}

#[test]
fn the_finder_takes_the_keys_while_it_is_open() {
    let mut app = App::with_config(AppConfig::default());
    app.state.load(digisurf::vcd::parser::parse_vcd(
        "$var wire 1 ! clk $end\n$var wire 1 # rst $end\n$var wire 1 % dat $end\n",
    ));
    assert_eq!(app.state.fuzzy_finder_state().all_signals.len(), 3);
    assert!(app.state.displayed_signals.is_empty());
    app.state.mode = AppMode::FuzzyFinder;
    app.state.selected_signal = 2;

    let control = |c: char| {
        Event::Key(KeyEvent {
            code: KeyCode::Char(c),
            shift: false,
            control: true,
        })
    };
    let plain = |code: KeyCode| Event::Key(KeyEvent::plain(code));

    assert!(app.accepts(plain(KeyCode::Down)));
    app.handle_event(plain(KeyCode::Down));
    app.handle_event(plain(KeyCode::Char(' ')));
    assert_eq!(app.state.fuzzy_finder_state().selected_signals, vec!["rst"]);
    app.handle_event(control('a'));
    assert_eq!(app.state.fuzzy_finder_state().selected_signals.len(), 3);
    app.handle_event(control('X'));
    assert!(app.state.fuzzy_finder_state().selected_signals.is_empty());
    app.handle_event(control('q'));
    assert_eq!(app.state.fuzzy_finder_state().query, "");
    app.handle_event(plain(KeyCode::Char('d')));
    assert_eq!(app.state.fuzzy_finder_state().filtered_signals, vec!["dat"]);
    app.handle_event(plain(KeyCode::Char(' ')));
    app.handle_event(plain(KeyCode::Backspace));
    app.handle_event(plain(KeyCode::Up));
    assert_eq!(app.state.fuzzy_finder_state().list_state.selected(), Some(2));
    app.handle_event(plain(KeyCode::Up));
    app.handle_event(plain(KeyCode::Up));
    app.handle_event(plain(KeyCode::Char(' ')));
    app.handle_event(plain(KeyCode::Enter));
    assert_eq!(app.state.mode, AppMode::Normal);
    assert_eq!(app.state.displayed_signals, vec!["clk", "dat"]);
    assert_eq!(app.state.selected_signal, 0);

    app.state.mode = AppMode::FuzzyFinder;
    app.handle_event(plain(KeyCode::Esc));
    assert_eq!(app.state.mode, AppMode::Normal);
    assert_eq!(app.state.displayed_signals, vec!["clk", "dat"]);
}

#[test]
fn the_help_takes_the_keys_while_it_is_shown() {
    let mut app = App::with_config(AppConfig::default());
    app.state.show_help = true;
    let plain = |code: KeyCode| Event::Key(KeyEvent::plain(code));
    app.handle_event(plain(KeyCode::Up));
    assert_eq!(app.state.help_menu_scroll, 0);
    app.handle_event(plain(KeyCode::Down));
    app.handle_event(plain(KeyCode::Down));
    app.handle_event(plain(KeyCode::Up));
    assert_eq!(app.state.help_menu_scroll, 1);
    app.handle_event(plain(KeyCode::Char(':')));
    assert_eq!(app.state.mode, AppMode::Normal);
    app.handle_event(plain(KeyCode::Esc));
    assert!(!app.state.show_help);
    assert_eq!(app.state.help_menu_scroll, 0);
}

#[test]
fn events_that_would_not_fit_are_told_apart() {
    let mut app = App::with_config(AppConfig::default());
    let zoom_in = Event::Key(KeyEvent::plain(KeyCode::Char('+')));
    assert!(app.accepts(zoom_in));
    app.state.time_start = u64::MAX;
    app.state.time_range = 10;
    assert!(!app.accepts(zoom_in));
    assert!(app.accepts(Event::Key(KeyEvent::plain(KeyCode::Char('-')))));
    assert!(app.accepts(Event::Idle(None)));
    app.state.command_mode_state.cursor_position = 3;
    assert!(!app.accepts(Event::Idle(None)));
}

fn scored(items: &[(&str, i64)]) -> Vec<(String, i64)> {
    items.iter().map(|(name, score)| (name.to_string(), *score)).collect()
}

#[test]
fn names_are_ranked_by_their_scores() {
    assert_eq!(rank(&Vec::new()), Vec::new());
    assert_eq!(rank(&scored(&[("a", 7)])), scored(&[("a", 7)]));
    assert_eq!(
        rank(&scored(&[("a", 1), ("b", 3), ("c", 1), ("d", 3), ("e", -2), ("f", 2)])),
        scored(&[("b", 3), ("d", 3), ("f", 2), ("a", 1), ("c", 1), ("e", -2)])
    );
    assert_eq!(
        rank(&scored(&[("x", i64::MIN), ("y", i64::MAX), ("z", 0)])),
        scored(&[("y", i64::MAX), ("z", 0), ("x", i64::MIN)])
    );
}

#[test]
fn matches_come_in_the_order_of_the_signals() {
    let mut state = FuzzyFinderState::default();
    state.all_signals = vec![
        "top.data".to_string(),
        "clk".to_string(),
        "top.cpu.clk".to_string(),
        "reset".to_string(),
    ];
    state.query = "clk".to_string();
    let found = state.scored_matches();
    let names: Vec<&str> = found.iter().map(|m| m.0.as_str()).collect();
    assert_eq!(names, vec!["clk", "top.cpu.clk"]);

    state.update_filtered_signals();
    let ranked: Vec<String> = rank(&found).into_iter().map(|m| m.0).collect();
    assert_eq!(state.filtered_signals, ranked);

    state.query = "qqq".to_string();
    assert!(state.scored_matches().is_empty());
}

#[test]
fn a_signal_is_chosen_once() {
    let mut state = FuzzyFinderState::default();
    let shown = vec!["b".to_string(), "a".to_string(), "b".to_string()];
    state.set_signals(vec!["a".to_string(), "b".to_string()], &shown);
    assert_eq!(state.selected_signals, vec!["b".to_string(), "a".to_string()]);
    state.select_all();
    assert_eq!(state.selected_signals, vec!["b".to_string(), "a".to_string()]);
    state.toggle_selected_signal();
    assert_eq!(state.selected_signals, vec!["b".to_string()]);
    state.toggle_selected_signal();
    assert_eq!(state.selected_signals, vec!["b".to_string(), "a".to_string()]);
}
