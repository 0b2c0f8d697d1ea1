use news_wizard::auth::{AuthEvent, Phase};
use news_wizard::messages::Language;
use news_wizard::store::{AppState, UserData};

#[test]
fn first_access_creates_a_default_entry() {
    let mut store = AppState::new();
    store.ensure_user(1);
    let state = store.take_state(1);
    assert_eq!(state.phase, Phase::Idle);
    assert!(state.session_handle.is_none());
    store.put_state(1, state);
    let data = store.take_data(1);
    assert!(data.language_code.is_none());
    store.put_data(1, data);
}

#[test]
fn creation_is_idempotent() {
    let mut store = AppState::new();
    store.ensure_user(2);
    let mut state = store.take_state(2);
    state.advance(AuthEvent::SessionConnected { session: 5, authorized: false });
    store.put_state(2, state);

    // A second ensure_user leaves the advanced entry as it is.
    store.ensure_user(2);
    let state = store.take_state(2);
    assert_eq!(state.phase, Phase::AwaitingPhoneNumber);
    assert_eq!(state.session_handle, Some(5));
    store.put_state(2, state);
}

#[test]
fn users_do_not_disturb_each_other() {
    // Working on one user's entry leaves every other user's entry untouched.
    let mut store = AppState::new();
    store.ensure_user(10);
    store.ensure_user(20);

    let mut state = store.take_state(10);
    state.advance(AuthEvent::SessionConnected { session: 1, authorized: true });
    store.put_state(10, state);

    let other = store.take_state(20);
    assert_eq!(other.phase, Phase::Idle);
    store.put_state(20, other);
    let updated = store.take_state(10);
    assert_eq!(updated.phase, Phase::Authorized);
    store.put_state(10, updated);
}

#[test]
fn handshake_routing_follows_the_phase() {
    let mut store = AppState::new();
    assert!(!store.handshake_active(7));
    store.ensure_user(7);
    assert!(!store.handshake_active(7));

    let mut state = store.take_state(7);
    state.advance(AuthEvent::SessionConnected { session: 2, authorized: false });
    store.put_state(7, state);
    assert!(store.handshake_active(7));

    let mut state = store.take_state(7);
    state.advance(AuthEvent::SessionConnected { session: 2, authorized: true });
    store.put_state(7, state);
    assert!(!store.handshake_active(7));
}

#[test]
fn command_language_caches_the_first_tag() {
    let mut data = UserData::new();
    assert_eq!(data.resolve_language(Some("ru".to_string())), Language::Ru);
    assert_eq!(data.language_code.as_deref(), Some("ru"));
    // A later, different tag does not replace the cached one.
    assert_eq!(data.resolve_language(Some("en".to_string())), Language::Ru);
    assert_eq!(data.language_code.as_deref(), Some("ru"));
}

#[test]
fn command_language_defaults_to_english() {
    let mut data = UserData::new();
    assert_eq!(data.resolve_language(None), Language::En);
    assert_eq!(data.resolve_language(Some("de".to_string())), Language::En);
    assert_eq!(data.language_code.as_deref(), Some("de"));
}

#[test]
fn message_language_defaults_to_russian() {
    let mut store = AppState::new();
    // No entry and no cached tag both fall back to Russian.
    assert_eq!(store.message_language(1), Language::Ru);
    store.ensure_user(1);
    assert_eq!(store.message_language(1), Language::Ru);

    let mut data = store.take_data(1);
    data.resolve_language(Some("en".to_string()));
    store.put_data(1, data);
    assert_eq!(store.message_language(1), Language::En);

    store.ensure_user(2);
    let mut data = store.take_data(2);
    data.resolve_language(Some("ru".to_string()));
    store.put_data(2, data);
    assert_eq!(store.message_language(2), Language::Ru);
}
