use spironmc::state::{SharedState, State};

#[test]
fn roundtrips_every_variant() {
    let state = SharedState::new(State::Created);
    for next in [State::Created, State::Initializing, State::Running, State::Stopping, State::Stopped] {
        state.set(next);
        assert_eq!(state.get(), next);
    }
}

#[test]
fn clones_observe_the_same_state() {
    let state = SharedState::new(State::Created);
    let other = state.clone();
    state.set(State::Running);
    assert_eq!(other.get(), State::Running);
}

#[test]
fn unknown_bytes_read_as_stopped() {
    assert_eq!(State::from_byte(3), State::Stopping);
    assert_eq!(State::from_byte(200), State::Stopped);
    assert_eq!(State::Running.to_byte(), 2);
}
