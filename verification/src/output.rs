//! What a renderer hands out when it is asked to show a result.
//!
//! A renderer performs no output itself. It says what is to be done, and the
//! caller does it: writes the text, or sends the notification.

use crate::notification::{notification_view, NotificationView};
use notify_rust::Notification;
use vstd::prelude::*;

verus! {

/// One thing to be shown to the user.
pub enum Output {
    /// Text for standard output, to be written exactly as it stands.
    Stdout(String),
    /// A desktop notification, to be sent once.
    Notification(Notification),
}

/// The mathematical content of an [`Output`].
pub enum OutputView {
    Stdout(Seq<char>),
    Notification(NotificationView),
}

impl View for Output {
    type V = OutputView;

    open spec fn view(&self) -> OutputView {
        match self {
            Output::Stdout(text) => OutputView::Stdout(text@),
            Output::Notification(n) => OutputView::Notification(notification_view(*n)),
        }
    }
}

/// A line on standard output: the text, closed by a newline.
pub open spec fn line(text: Seq<char>) -> Seq<char> {
    text.push('\n')
}

} // verus!
