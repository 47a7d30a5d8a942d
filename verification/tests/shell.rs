use app_template::{AppEvent, AppState};

#[test]
fn page_starts_with_zero_light_and_empty() {
    let state = AppState::new();
    assert_eq!(state.count, 0);
    assert!(!state.dark_mode);
    assert_eq!(state.input_value, "");
    assert_eq!(state.root_class(), "");
    assert_eq!(state.greeting(), None);
}

#[test]
fn counter_counts_up_down_and_resets() {
    let mut state = AppState::new();
    assert_eq!(state.count, 0);
    for _ in 0..3 {
        state.apply(AppEvent::Increment);
    }
    assert_eq!(state.count, 3);
    state.apply(AppEvent::Decrement);
    assert_eq!(state.count, 2);
    state.apply(AppEvent::Reset);
    assert_eq!(state.count, 0);
}

#[test]
fn counter_goes_below_zero() {
    let mut state = AppState::new();
    state.apply(AppEvent::Decrement);
    state.apply(AppEvent::Decrement);
    assert_eq!(state.count, -2);
    state.apply(AppEvent::Reset);
    assert_eq!(state.count, 0);
}

#[test]
fn greeting_follows_the_text() {
    let mut state = AppState::new();
    assert_eq!(state.greeting(), None);
    state.apply(AppEvent::Input("Ada".to_string()));
    assert_eq!(state.input_value, "Ada");
    let greeting = state.greeting().unwrap();
    assert!(greeting.contains("Ada"));
    assert_eq!(greeting, "Hello, Ada! Nice to meet you.");
    state.apply(AppEvent::Input("".to_string()));
    assert_eq!(state.input_value, "");
    assert_eq!(state.greeting(), None);
}

#[test]
fn text_is_taken_verbatim() {
    let mut state = AppState::new();
    let long = "x".repeat(10_000);
    for text in ["  Ada  ", " ", "<b>Ada</b>", "\u{1f600}", long.as_str()] {
        state.apply(AppEvent::Input(text.to_string()));
        assert_eq!(state.input_value, text);
        assert_eq!(state.greeting(), Some(format!("Hello, {text}! Nice to meet you.")));
    }
}

#[test]
fn dark_mode_toggles_the_root_class() {
    let mut state = AppState::new();
    assert_eq!(state.root_class(), "");
    state.apply(AppEvent::ToggleDarkMode);
    assert!(state.dark_mode);
    assert_eq!(state.root_class(), "dark");
    state.apply(AppEvent::ToggleDarkMode);
    assert!(!state.dark_mode);
    assert_eq!(state.root_class(), "");
}

#[test]
fn an_event_leaves_the_other_cells_alone() {
    let mut state = AppState { count: 5, dark_mode: true, input_value: "Ada".to_string() };
    state.apply(AppEvent::Increment);
    assert_eq!((state.count, state.dark_mode, state.input_value.as_str()), (6, true, "Ada"));
    state.apply(AppEvent::ToggleDarkMode);
    assert_eq!((state.count, state.dark_mode, state.input_value.as_str()), (6, false, "Ada"));
    state.apply(AppEvent::Input("Bob".to_string()));
    assert_eq!((state.count, state.dark_mode, state.input_value.as_str()), (6, false, "Bob"));
    state.apply(AppEvent::Reset);
    assert_eq!((state.count, state.dark_mode, state.input_value.as_str()), (0, false, "Bob"));
    state.apply(AppEvent::Decrement);
    assert_eq!((state.count, state.dark_mode, state.input_value.as_str()), (-1, false, "Bob"));
}

#[test]
fn counter_has_no_room_past_either_end() {
    let mut state = AppState::new();
    assert!(state.accepts(&AppEvent::Increment));
    assert!(state.accepts(&AppEvent::Decrement));

    state.count = i32::MAX;
    assert!(!state.accepts(&AppEvent::Increment));
    assert!(state.accepts(&AppEvent::Decrement));
    assert!(state.accepts(&AppEvent::Reset));
    assert!(state.accepts(&AppEvent::ToggleDarkMode));
    assert!(state.accepts(&AppEvent::Input("x".to_string())));
    state.apply(AppEvent::Decrement);
    assert_eq!(state.count, i32::MAX - 1);
    assert!(state.accepts(&AppEvent::Increment));
    state.apply(AppEvent::Increment);
    assert_eq!(state.count, i32::MAX);

    state.count = i32::MIN;
    assert!(!state.accepts(&AppEvent::Decrement));
    assert!(state.accepts(&AppEvent::Increment));
    state.apply(AppEvent::Increment);
    assert_eq!(state.count, i32::MIN + 1);
}
