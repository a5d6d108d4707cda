use asteroids::error_message::ErrorMessage;

#[test]
fn empty_message_shows_nothing() {
    let error = ErrorMessage::new_empty();
    assert_eq!(error.get_message(), None);
    assert!(!error.is_expired());
}

#[test]
fn empty_message_expires_after_one_tick() {
    let mut error = ErrorMessage::new_empty();
    error.tick();
    assert!(error.is_expired());
    error.tick();
    assert!(error.is_expired());
    assert_eq!(error.get_message(), None);
}

#[test]
fn message_is_shown_until_its_duration_is_over() {
    let mut error = ErrorMessage::new_dismissable("Not enough coins", 2);
    assert_eq!(error.get_message(), Some("Not enough coins".to_string()));
    error.tick();
    error.tick();
    assert!(!error.is_expired());
    assert_eq!(error.get_message(), Some("Not enough coins".to_string()));
    error.tick();
    assert!(error.is_expired());
    assert_eq!(error.get_message(), None);
}

#[test]
fn non_dismissable_message_is_shown_too() {
    let error = ErrorMessage::new_non_dismissable("Item not found", 0);
    assert_eq!(error.get_message(), Some("Item not found".to_string()));
    assert!(!error.is_expired());
}

#[test]
fn negative_duration_is_expired_at_once() {
    let error = ErrorMessage::new_dismissable("late", -1);
    assert!(error.is_expired());
    assert_eq!(error.get_message(), None);
}

#[test]
fn setting_a_message_starts_its_time_anew() {
    let mut error = ErrorMessage::new_dismissable("first", 1);
    error.tick();
    error.tick();
    assert!(error.is_expired());
    error.set_error_message("second");
    assert!(!error.is_expired());
    assert_eq!(error.get_message(), Some("second".to_string()));
}

#[test]
fn expired_message_loses_its_text_with_the_next_tick() {
    let mut error = ErrorMessage::new_dismissable("gone", 0);
    error.tick();
    assert!(error.is_expired());
    error.tick();
    // the duration is over, and a longer one would not bring the text back
    assert_eq!(error.get_message(), None);
}

#[test]
fn dismissed_message_is_gone() {
    let mut error = ErrorMessage::new_dismissable("Item already at max level", 100);
    error.dismiss();
    assert_eq!(error.get_message(), None);
    assert!(!error.is_expired());
}

#[test]
fn dismissable_message_is_marked_so() {
    let error = ErrorMessage::new_dismissable("Not enough coins", 100);
    assert!(format!("{:?}", error).contains("dismissable: true"));
    let error = ErrorMessage::new_non_dismissable("Not enough coins", 100);
    assert!(format!("{:?}", error).contains("dismissable: false"));
    let error = ErrorMessage::new_empty();
    assert!(format!("{:?}", error).contains("dismissable: false"));
}
