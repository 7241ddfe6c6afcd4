use button_display::mode::DisplayState;

#[test]
fn next_state_cycles_after_three_steps() {
    let all = [DisplayState::Temp, DisplayState::Humidity, DisplayState::Pressure];
    for s in all {
        assert_eq!(s.next_state().next_state().next_state(), s);
        assert_ne!(s.next_state(), s);
    }
}

#[test]
fn next_state_order_is_temp_humidity_pressure() {
    assert_eq!(DisplayState::Temp.next_state(), DisplayState::Humidity);
    assert_eq!(DisplayState::Humidity.next_state(), DisplayState::Pressure);
    assert_eq!(DisplayState::Pressure.next_state(), DisplayState::Temp);
}

#[test]
fn default_mode_is_temperature() {
    assert_eq!(DisplayState::default(), DisplayState::Temp);
}
