//! A message for the player that disappears after some ticks.

use vstd::prelude::*;

verus! {

/// What an [`ErrorMessage`] holds.
pub struct ErrorMessageView {
    /// The text, if there is one.
    pub message: Option<Seq<char>>,
    /// Whether the player can dismiss the message.
    pub dismissable: bool,
    /// The ticks since the message was created.
    pub time_since_creation: int,
    /// The ticks for which the message is shown.
    pub message_duration: int,
}

impl ErrorMessageView {
    /// Whether the message has been shown for longer than its duration.
    pub open spec fn expired(self) -> bool {
        self.time_since_creation > self.message_duration
    }

    /// Whether the message can take a tick: it has expired, or its age can
    /// still be counted.
    pub open spec fn can_tick(self) -> bool {
        self.expired() || self.time_since_creation < i32::MAX
    }

    /// The message one tick later: an expired message loses its text, any
    /// other grows one tick older.
    pub open spec fn ticked(self) -> Self {
        if self.expired() {
            ErrorMessageView { message: None, ..self }
        } else {
            ErrorMessageView { time_since_creation: self.time_since_creation + 1, ..self }
        }
    }

    /// The text to show: the message, until it expires.
    pub open spec fn visible(self) -> Option<Seq<char>> {
        if self.expired() {
            None
        } else {
            self.message
        }
    }

    /// A message without a text, which lasts no time.
    pub open spec fn empty() -> Self {
        ErrorMessageView {
            message: None,
            dismissable: false,
            time_since_creation: 0,
            message_duration: 0,
        }
    }

    /// A fresh message with a text.
    pub open spec fn fresh(message: Seq<char>, dismissable: bool, duration: int) -> Self {
        ErrorMessageView {
            message: Some(message),
            dismissable,
            time_since_creation: 0,
            message_duration: duration,
        }
    }
}

/// The ErrorMessage struct is used to display error messages to the user.
#[derive(Debug)]
pub struct ErrorMessage {
    /// The message of the error.
    message: Option<&'static str>,
    /// Whether the user can click on the error message to dismiss it.
    dismissable: bool,
    /// The time since the error message was created.
    time_since_creation: i32,
    /// The duration of the error message.
    message_duration: i32,
}

impl View for ErrorMessage {
    type V = ErrorMessageView;

    closed spec fn view(&self) -> ErrorMessageView {
        ErrorMessageView {
            message: match self.message {
                Some(text) => Some(text@),
                None => None,
            },
            dismissable: self.dismissable,
            time_since_creation: self.time_since_creation as int,
            message_duration: self.message_duration as int,
        }
    }
}

impl ErrorMessage {
    /// Creates a new empty error message. This is used to initialize the
    /// error message.
    pub fn new_empty() -> (error: Self)
        ensures
            error@ == ErrorMessageView::empty(),
    {
        Self { message: None, dismissable: false, time_since_creation: 0, message_duration: 0 }
    }

    /// Creates a new error message with a message and a duration, which the
    /// user can dismiss.
    pub fn new_dismissable(message: &'static str, duration: i32) -> (error: Self)
        ensures
            error@ == ErrorMessageView::fresh(message@, true, duration as int),
    {
        Self {
            message: Some(message),
            dismissable: true,
            time_since_creation: 0,
            message_duration: duration,
        }
    }

    /// Creates a new error message with a message and a duration, which the
    /// user cannot dismiss.
    pub fn new_non_dismissable(message: &'static str, duration: i32) -> (error: Self)
        ensures
            error@ == ErrorMessageView::fresh(message@, false, duration as int),
    {
        Self {
            message: Some(message),
            dismissable: false,
            time_since_creation: 0,
            message_duration: duration,
        }
    }

    /// Ticks the error message: an expired message loses its text, any
    /// other grows one tick older.
    pub fn tick(&mut self)
        requires
            old(self)@.can_tick(),
        ensures
            final(self)@ == old(self)@.ticked(),
    {
        if self.is_expired() {
            self.message = None;
        } else {
            self.time_since_creation += 1;
        }
    }

    /// Whether the message can take a tick.
    pub fn can_tick(&self) -> (ready: bool)
        ensures
            ready == self@.can_tick(),
    {
        self.is_expired() || self.time_since_creation < i32::MAX
    }

    /// Returns whether the error message is expired.
    pub fn is_expired(&self) -> (expired: bool)
        ensures
            expired == self@.expired(),
    {
        self.time_since_creation > self.message_duration
    }

    /// Returns the message to display, if there is one and it has not
    /// expired.
    pub fn get_message(&self) -> (message: Option<String>)
        ensures
            self@.visible() == match message {
                Some(text) => Some(text@),
                None => None,
            },
    {
        broadcast use vstd::string::to_string_from_display_ensures_for_str;

        if !self.is_expired() {
            match self.message {
                Some(text) => Some(text.to_string()),
                None => None,
            }
        } else {
            None
        }
    }

    /// Sets the message of the error message, and starts its time anew.
    pub fn set_error_message(&mut self, message: &'static str)
        ensures
            final(self)@ == (ErrorMessageView {
                message: Some(message@),
                time_since_creation: 0,
                ..old(self)@
            }),
    {
        self.message = Some(message);
        self.time_since_creation = 0;
    }

    /// Dismisses the error message.
    pub fn dismiss(&mut self)
        ensures
            final(self)@ == (ErrorMessageView { message: None, ..old(self)@ }),
    {
        self.message = None;
    }
}

} // verus!
