//! Renderers that style the parts of a lookup result and show it.

use crate::notification::{
    finalize, notification_view, set_appname, set_body, set_summary, set_timeout,
    NotificationView,
};
use crate::output::{line, Output, OutputView};
use notify_rust::Notification;
use vstd::prelude::*;

verus! {

/// The name under which notifications are sent.
pub const APP_NAME: &'static str = "ydcv";

/// How long a notification stays up, in milliseconds.
pub const NOTIFICATION_TIMEOUT: i32 = 30000;

/// The emphases a renderer can give to a piece of text.
pub enum Style {
    Default,
    Red,
    Yellow,
    Purple,
    Cyan,
    Underline,
}

/// A renderer: six ways to style a piece of text, and one way to show a result.
pub trait Formatter {
    /// The text that this renderer makes of `s` in the given style.
    spec fn styled(&self, style: Style, s: Seq<char>) -> Seq<char>;

    /// What this renderer hands out for a word and the rendered body of its entry.
    spec fn emitted(&self, word: Seq<char>, body: Seq<char>) -> OutputView;

    fn red(&self, s: &str) -> (r: String)
        ensures
            r@ == self.styled(Style::Red, s@),
    ;

    fn yellow(&self, s: &str) -> (r: String)
        ensures
            r@ == self.styled(Style::Yellow, s@),
    ;

    fn purple(&self, s: &str) -> (r: String)
        ensures
            r@ == self.styled(Style::Purple, s@),
    ;

    fn cyan(&self, s: &str) -> (r: String)
        ensures
            r@ == self.styled(Style::Cyan, s@),
    ;

    fn underline(&self, s: &str) -> (r: String)
        ensures
            r@ == self.styled(Style::Underline, s@),
    ;

    fn default(&self, s: &str) -> (r: String)
        ensures
            r@ == self.styled(Style::Default, s@),
    ;

    /// Says how the entry for `word` is to be shown. Showing one entry changes
    /// nothing about how the renderer styles text or shows the next entry.
    fn print(&mut self, word: &str, body: &str) -> (out: Output)
        ensures
            out@ == old(self).emitted(word@, body@),
            forall|style: Style, s: Seq<char>|
                #[trigger] final(self).styled(style, s) == old(self).styled(style, s),
            forall|w: Seq<char>, b: Seq<char>|
                #[trigger] final(self).emitted(w, b) == old(self).emitted(w, b),
    ;
}

/// `prefix`, then `s`, then `suffix`, in one new string.
fn wrap(prefix: &str, s: &str, suffix: &str) -> (r: String)
    ensures
        r@ == prefix@ + s@ + suffix@,
{
    let mut r = String::from_str(prefix);
    r.append(s);
    r.append(suffix);
    r
}

/// The text to write to standard output for one entry: its body as a line.
fn stdout_line(body: &str) -> (out: Output)
    ensures
        out@ == OutputView::Stdout(line(body@)),
{
    let text = wrap("", body, "\n");
    proof {
        reveal_strlit("");
        reveal_strlit("\n");
        assert(text@ =~= line(body@));
    }
    Output::Stdout(text)
}

/// Renderer for plain text: every style leaves the text as it is.
pub struct PlainFormatter;

impl Formatter for PlainFormatter {
    open spec fn styled(&self, style: Style, s: Seq<char>) -> Seq<char> {
        s
    }

    open spec fn emitted(&self, word: Seq<char>, body: Seq<char>) -> OutputView {
        OutputView::Stdout(line(body))
    }

    fn default(&self, s: &str) -> (r: String)
        ensures
            r@ == s@,
    {
        String::from_str(s)
    }

    fn red(&self, s: &str) -> (r: String)
        ensures
            r@ == s@,
    {
        String::from_str(s)
    }

    fn yellow(&self, s: &str) -> (r: String)
        ensures
            r@ == s@,
    {
        String::from_str(s)
    }

    fn purple(&self, s: &str) -> (r: String)
        ensures
            r@ == s@,
    {
        String::from_str(s)
    }

    fn cyan(&self, s: &str) -> (r: String)
        ensures
            r@ == s@,
    {
        String::from_str(s)
    }

    fn underline(&self, s: &str) -> (r: String)
        ensures
            r@ == s@,
    {
        String::from_str(s)
    }

    /// Hands out the body as a line for standard output.
    fn print(&mut self, word: &str, body: &str) -> (out: Output)
        ensures
            out@ == OutputView::Stdout(line(body@)),
    {
        stdout_line(body)
    }
}

/// Renderer for terminals: styles text with ANSI escape sequences, each
/// closed by a reset.
pub struct AnsiFormatter;

impl Formatter for AnsiFormatter {
    open spec fn styled(&self, style: Style, s: Seq<char>) -> Seq<char> {
        match style {
            Style::Default => s,
            Style::Red => "\x1b[31m"@ + s + "\x1b[0m"@,
            Style::Yellow => "\x1b[33m"@ + s + "\x1b[0m"@,
            Style::Purple => "\x1b[35m"@ + s + "\x1b[0m"@,
            Style::Cyan => "\x1b[36m"@ + s + "\x1b[0m"@,
            Style::Underline => "\x1b[4m"@ + s + "\x1b[0m"@,
        }
    }

    open spec fn emitted(&self, word: Seq<char>, body: Seq<char>) -> OutputView {
        OutputView::Stdout(line(body))
    }

    fn default(&self, s: &str) -> (r: String)
        ensures
            r@ == s@,
    {
        String::from_str(s)
    }

    fn red(&self, s: &str) -> (r: String)
        ensures
            r@ == "\x1b[31m"@ + s@ + "\x1b[0m"@,
    {
        wrap("\x1b[31m", s, "\x1b[0m")
    }

    fn yellow(&self, s: &str) -> (r: String)
        ensures
            r@ == "\x1b[33m"@ + s@ + "\x1b[0m"@,
    {
        wrap("\x1b[33m", s, "\x1b[0m")
    }

    fn purple(&self, s: &str) -> (r: String)
        ensures
            r@ == "\x1b[35m"@ + s@ + "\x1b[0m"@,
    {
        wrap("\x1b[35m", s, "\x1b[0m")
    }

    fn cyan(&self, s: &str) -> (r: String)
        ensures
            r@ == "\x1b[36m"@ + s@ + "\x1b[0m"@,
    {
        wrap("\x1b[36m", s, "\x1b[0m")
    }

    fn underline(&self, s: &str) -> (r: String)
        ensures
            r@ == "\x1b[4m"@ + s@ + "\x1b[0m"@,
    {
        wrap("\x1b[4m", s, "\x1b[0m")
    }

    /// Hands out the body as a line for standard output.
    fn print(&mut self, word: &str, body: &str) -> (out: Output)
        ensures
            out@ == OutputView::Stdout(line(body@)),
    {
        stdout_line(body)
    }
}

/// What an [`HtmlFormatter`] is: whether it notifies, and what its
/// notification currently says.
pub struct HtmlFormatterView {
    pub notify: bool,
    pub notifier: NotificationView,
}

/// Renderer for desktop notifications: styles text with markup tags, and shows
/// an entry as a notification, or on standard output where notifying is off.
pub struct HtmlFormatter {
    notify: bool,
    notifier: Notification,
}

impl View for HtmlFormatter {
    type V = HtmlFormatterView;

    closed spec fn view(&self) -> HtmlFormatterView {
        HtmlFormatterView { notify: self.notify, notifier: notification_view(self.notifier) }
    }
}

/// The notification that shows the entry for `word`.
pub open spec fn entry_notification(word: Seq<char>, body: Seq<char>) -> NotificationView {
    NotificationView {
        appname: APP_NAME@,
        summary: word,
        body: body,
        timeout: NOTIFICATION_TIMEOUT as int,
    }
}

impl HtmlFormatter {
    /// A renderer that notifies if `notify` is set, and that fills in and
    /// hands out `notifier` for every entry it shows that way. The caller
    /// makes the notification, since making one reads the name of the
    /// running program.
    pub fn new(notify: bool, notifier: Notification) -> (f: HtmlFormatter)
        ensures
            f@.notify == notify,
            f@.notifier == notification_view(notifier),
    {
        HtmlFormatter { notify: notify, notifier: notifier }
    }

    /// The renderer's notification, as the last entry shown left it.
    pub fn notifier(&self) -> (n: &Notification)
        ensures
            notification_view(*n) == self@.notifier,
    {
        &self.notifier
    }
}

impl Formatter for HtmlFormatter {
    open spec fn styled(&self, style: Style, s: Seq<char>) -> Seq<char> {
        match style {
            Style::Default => s,
            Style::Red => "<span color=\"red\">"@ + s + "</span>"@,
            Style::Yellow => "<span color=\"goldenrod\">"@ + s + "</span>"@,
            Style::Purple => "<span color=\"purple\">"@ + s + "</span>"@,
            Style::Cyan => "<span color=\"navy\">"@ + s + "</span>"@,
            Style::Underline => "<u>"@ + s + "</u>"@,
        }
    }

    open spec fn emitted(&self, word: Seq<char>, body: Seq<char>) -> OutputView {
        if self@.notify {
            OutputView::Notification(entry_notification(word, body))
        } else {
            OutputView::Stdout(line(body))
        }
    }

    fn red(&self, s: &str) -> (r: String)
        ensures
            r@ == "<span color=\"red\">"@ + s@ + "</span>"@,
    {
        wrap("<span color=\"red\">", s, "</span>")
    }

    fn yellow(&self, s: &str) -> (r: String)
        ensures
            r@ == "<span color=\"goldenrod\">"@ + s@ + "</span>"@,
    {
        wrap("<span color=\"goldenrod\">", s, "</span>")
    }

    fn purple(&self, s: &str) -> (r: String)
        ensures
            r@ == "<span color=\"purple\">"@ + s@ + "</span>"@,
    {
        wrap("<span color=\"purple\">", s, "</span>")
    }

    fn cyan(&self, s: &str) -> (r: String)
        ensures
            r@ == "<span color=\"navy\">"@ + s@ + "</span>"@,
    {
        wrap("<span color=\"navy\">", s, "</span>")
    }

    fn underline(&self, s: &str) -> (r: String)
        ensures
            r@ == "<u>"@ + s@ + "</u>"@,
    {
        wrap("<u>", s, "</u>")
    }

    fn default(&self, s: &str) -> (r: String)
        ensures
            r@ == s@,
    {
        String::from_str(s)
    }

    /// With notifying on, rewrites the renderer's notification for this entry
    /// and hands out a copy of it to send. With notifying off, leaves the
    /// renderer as it is and hands out the body as a line for standard output.
    fn print(&mut self, word: &str, body: &str) -> (out: Output)
        ensures
            final(self)@.notify == old(self)@.notify,
            old(self)@.notify ==> out@ == OutputView::Notification(entry_notification(word@, body@)),
            old(self)@.notify ==> final(self)@.notifier == entry_notification(word@, body@),
            !old(self)@.notify ==> out@ == OutputView::Stdout(line(body@)),
            !old(self)@.notify ==> *final(self) == *old(self),
    {
        if self.notify {
            set_appname(&mut self.notifier, APP_NAME);
            set_summary(&mut self.notifier, word);
            set_body(&mut self.notifier, body);
            set_timeout(&mut self.notifier, NOTIFICATION_TIMEOUT);
            Output::Notification(finalize(&self.notifier))
        } else {
            stdout_line(body)
        }
    }
}

} // verus!
