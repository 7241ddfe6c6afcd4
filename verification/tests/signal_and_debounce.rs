use button_display::debounce::Debouncer;
use button_display::debounce::QUIET_WINDOW_MS;
use button_display::mode::DisplayState;
use button_display::mode_signal::ModeSignal;

#[test]
fn publish_overwrites_and_wait_consumes_once() {
    let mut signal = ModeSignal::new();
    assert!(!signal.has_pending());

    signal.publish(DisplayState::Humidity);
    signal.publish(DisplayState::Pressure);
    assert!(signal.has_pending());

    // Latest value wins: never Humidity, and only one value is delivered.
    assert_eq!(signal.wait(), DisplayState::Pressure);
    assert!(!signal.has_pending());
}

#[test]
fn wait_returns_a_single_publish() {
    let mut signal = ModeSignal::new();
    signal.publish(DisplayState::Temp);
    assert_eq!(signal.wait(), DisplayState::Temp);
    assert!(!signal.has_pending());
}

#[test]
fn three_edges_in_one_quiet_window_accept_one_press() {
    let mut signal = ModeSignal::new();
    let mut debouncer = Debouncer::new(DisplayState::Temp);

    // First edge: accepted, advances Temp -> Humidity and publishes it.
    assert_eq!(debouncer.on_edge(&mut signal, 1000), Some(DisplayState::Humidity));
    // Two bounces inside the 50 ms quiet window: both rejected.
    assert_eq!(debouncer.on_edge(&mut signal, 1010), None);
    assert_eq!(debouncer.on_edge(&mut signal, 1049), None);
    // Exactly one transition was published.
    assert_eq!(signal.wait(), DisplayState::Humidity);
    assert!(!signal.has_pending());

    // The quiet window ends 50 ms after the accepted edge.
    assert_eq!(
        debouncer.on_edge(&mut signal, 1000 + QUIET_WINDOW_MS),
        Some(DisplayState::Pressure)
    );
}

#[test]
fn unconsumed_presses_leave_only_the_freshest_mode() {
    let mut signal = ModeSignal::new();
    let mut debouncer = Debouncer::new(DisplayState::Temp);

    // Three accepted presses while the reader is busy: the slot keeps only
    // the last mode, never a backlog.
    assert_eq!(debouncer.on_edge(&mut signal, 0), Some(DisplayState::Humidity));
    assert_eq!(debouncer.on_edge(&mut signal, 60), Some(DisplayState::Pressure));
    assert_eq!(debouncer.on_edge(&mut signal, 120), Some(DisplayState::Temp));
    assert_eq!(signal.wait(), DisplayState::Temp);
    assert!(!signal.has_pending());
}

#[test]
fn very_first_edge_is_always_accepted() {
    let mut signal = ModeSignal::new();
    let mut debouncer = Debouncer::new(DisplayState::Pressure);
    assert_eq!(debouncer.on_edge(&mut signal, 0), Some(DisplayState::Temp));
}
