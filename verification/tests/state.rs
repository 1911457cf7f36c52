use digisurf::state::AppState;
use digisurf::value::{Value, WaveValue};
use digisurf::waveform::SignalValues;

fn create_test_state() -> AppState {
    let mut state = AppState::new();

    state.waveform_data.signals = vec!["sig1".to_string(), "sig2".to_string()];
    state.displayed_signals = vec!["sig1".to_string(), "sig2".to_string()];

    let mut values = SignalValues::new();
    values.insert(
        "sig1".to_string(),
        vec![
            (0, WaveValue::Binary(Value::V0)),
            (10, WaveValue::Binary(Value::V1)),
            (20, WaveValue::Binary(Value::V0)),
        ],
    );
    values.insert(
        "sig2".to_string(),
        vec![
            (0, WaveValue::Binary(Value::V1)),
            (15, WaveValue::Binary(Value::V0)),
        ],
    );

    state.waveform_data.values = values;
    state.waveform_data.max_time = 50;

    state
}

#[test]
fn test_screen_pos_to_time_conversion() {
    let mut state = create_test_state();
    state.time_start = 0;
    state.time_range = 100;

    assert_eq!(state.screen_pos_to_time(0, 100), 0);
    assert_eq!(state.screen_pos_to_time(50, 100), 50);
    assert_eq!(state.screen_pos_to_time(100, 100), 100);

    state.time_start = 50;
    assert_eq!(state.screen_pos_to_time(0, 100), 50);
    assert_eq!(state.screen_pos_to_time(50, 100), 100);
}

#[test]
fn test_get_value_at_marker() {
    let state = create_test_state();

    assert_eq!(
        state.get_value_at_marker("sig1", 0),
        Some(WaveValue::Binary(Value::V0))
    );

    assert_eq!(
        state.get_value_at_marker("sig1", 15),
        Some(WaveValue::Binary(Value::V1))
    );

    assert_eq!(
        state.get_transition_at_marker("sig1", 10),
        Some("V0->V1".to_string())
    );

    assert_eq!(state.get_value_at_marker("nonexistent", 0), None);
}

#[test]
fn test_get_visible_values() {
    let mut state = create_test_state();

    state.time_start = 0;
    state.time_range = 50;
    let visible = state.get_visible_values("sig1");
    assert_eq!(visible.len(), 3);

    state.time_start = 10;
    state.time_range = 20;
    let visible = state.get_visible_values("sig1");
    assert_eq!(visible.len(), 3);

    state.time_start = 11;
    state.time_range = 20;
    let visible = state.get_visible_values("sig1");
    assert_eq!(visible.len(), 2);

    state.time_start = 21;
    state.time_range = 50;
    let visible = state.get_visible_values("sig1");
    assert_eq!(visible.len(), 1);

    state.time_start = 30;
    state.time_range = 50;
    let visible = state.get_visible_values("sig1");
    assert_eq!(visible.len(), 1);

    state.displayed_signals = vec!["sig2".to_string()];
    let visible = state.get_visible_values("sig1");
    assert_eq!(visible.len(), 0);
}

#[test]
fn transitions_need_a_change_of_value_and_a_change_before() {
    let mut state = create_test_state();
    state.waveform_data.values.insert(
        "clk".to_string(),
        vec![
            (0, WaveValue::Binary(Value::V0)),
            (10, WaveValue::Binary(Value::V1)),
            (20, WaveValue::Binary(Value::V0)),
            (30, WaveValue::Binary(Value::V0)),
        ],
    );
    assert_eq!(
        state.get_transition_at_marker("clk", 10),
        Some("V0->V1".to_string())
    );
    assert_eq!(state.get_transition_at_marker("clk", 0), None);
    assert_eq!(
        state.get_transition_at_marker("clk", 20),
        Some("V1->V0".to_string())
    );
    assert_eq!(state.get_transition_at_marker("clk", 30), None);
    assert_eq!(state.get_transition_at_marker("clk", 15), None);
    assert_eq!(state.get_transition_at_marker("nonexistent", 10), None);

    state.waveform_data.values.insert(
        "bus".to_string(),
        vec![
            (0, WaveValue::Bus("0F".to_string())),
            (5, WaveValue::Bus("1x".to_string())),
            (7, WaveValue::Binary(Value::VZ)),
            (9, WaveValue::Binary(Value::VX)),
        ],
    );
    assert_eq!(
        state.get_transition_at_marker("bus", 5),
        Some("0F->1x".to_string())
    );
    assert_eq!(
        state.get_transition_at_marker("bus", 7),
        Some("???".to_string())
    );
    assert_eq!(
        state.get_transition_at_marker("bus", 9),
        Some("VZ->VX".to_string())
    );
}

#[test]
fn the_window_starts_with_the_value_carried_into_it() {
    let mut state = create_test_state();
    state.time_start = 12;
    state.time_range = 8;
    assert_eq!(
        state.get_visible_values("sig1"),
        vec![(12, WaveValue::Binary(Value::V1))]
    );
    assert_eq!(
        state.get_value_at_marker("sig1", 12),
        Some(WaveValue::Binary(Value::V1))
    );
    state.time_range = 9;
    assert_eq!(
        state.get_visible_values("sig1"),
        vec![
            (12, WaveValue::Binary(Value::V1)),
            (20, WaveValue::Binary(Value::V0)),
        ]
    );
    state.time_start = 10;
    assert_eq!(
        state.get_visible_values("sig1"),
        vec![
            (10, WaveValue::Binary(Value::V0)),
            (10, WaveValue::Binary(Value::V1)),
        ]
    );
    state.time_start = 0;
    state.time_range = 10;
    assert_eq!(
        state.get_visible_values("sig1"),
        vec![(0, WaveValue::Binary(Value::V0))]
    );
    state.time_start = u64::MAX;
    state.time_range = u64::MAX;
    assert_eq!(
        state.get_visible_values("sig1"),
        vec![(u64::MAX, WaveValue::Binary(Value::V0))]
    );
}

#[test]
fn values_before_the_first_change_are_unknown() {
    let mut state = create_test_state();
    state.waveform_data.values.insert(
        "late".to_string(),
        vec![(5, WaveValue::Bus("AB".to_string()))],
    );
    assert_eq!(state.get_value_at_marker("late", 4), None);
    assert_eq!(
        state.get_value_at_marker("late", 5),
        Some(WaveValue::Bus("AB".to_string()))
    );
    assert_eq!(
        state.get_value_at_marker("late", u64::MAX),
        Some(WaveValue::Bus("AB".to_string()))
    );
}

#[test]
fn screen_positions_round_to_the_nearest_time() {
    let mut state = create_test_state();
    state.time_start = 10;
    state.time_range = 5;
    assert_eq!(state.screen_pos_to_time(1, 10), 11);
    assert_eq!(state.screen_pos_to_time(1, 11), 10);
    assert_eq!(state.screen_pos_to_time(3, 10), 12);
    assert_eq!(state.screen_pos_to_time(0, 0), 0);
    assert_eq!(state.screen_pos_to_time(1, 0), u64::MAX);
    state.time_range = 0;
    assert_eq!(state.screen_pos_to_time(1, 0), 0);
    assert_eq!(state.screen_pos_to_time(7, 10), 10);
    state.time_start = u64::MAX - 1;
    state.time_range = 100;
    assert_eq!(state.screen_pos_to_time(10, 10), u64::MAX);
}

#[test]
fn markers_are_placed_where_the_screen_says() {
    let mut state = create_test_state();
    state.time_start = 20;
    state.time_range = 10;
    state.set_primary_marker(5, 10);
    state.set_secondary_marker(20, 10);
    assert_eq!(state.primary_marker, Some(25));
    assert_eq!(state.secondary_marker, Some(40));
}
