//! The desktop notification that the markup renderer fills in and hands out.
//!
//! A `notify_rust::Notification` is opaque to the verifier. What the renderer
//! writes into it is named here, field by field, and every call into
//! `notify_rust` goes through one of the small functions below, whose contracts
//! are taken on trust from that crate's source.

use notify_rust::Notification;
use vstd::prelude::*;

verus! {

/// `notify_rust::Notification`, carried through verified code as an opaque value.
#[verifier::external_type_specification]
#[verifier::external_body]
pub struct ExNotification(Notification);

/// The application name a notification is sent under (its `appname` field).
pub uninterp spec fn notification_appname(n: Notification) -> Seq<char>;

/// The title line of a notification (its `summary` field).
pub uninterp spec fn notification_summary(n: Notification) -> Seq<char>;

/// The message text of a notification (its `body` field).
pub uninterp spec fn notification_body(n: Notification) -> Seq<char>;

/// The expiry a notification asks for (its `timeout` field), as the number
/// that `i32::from` makes of it: a positive count of milliseconds, 0 for a
/// notification that never expires, -1 where the server is left to decide.
pub uninterp spec fn notification_timeout(n: Notification) -> int;

/// What a notification says, as far as this library writes it.
pub struct NotificationView {
    pub appname: Seq<char>,
    pub summary: Seq<char>,
    pub body: Seq<char>,
    pub timeout: int,
}

/// The four named fields of a notification, gathered in one value.
pub open spec fn notification_view(n: Notification) -> NotificationView {
    NotificationView {
        appname: notification_appname(n),
        summary: notification_summary(n),
        body: notification_body(n),
        timeout: notification_timeout(n),
    }
}

/// Calls `Notification::appname`, which overwrites the application name with
/// a copy of the given text and touches no other field.
#[verifier::external_body]
pub(crate) fn set_appname(n: &mut Notification, appname: &str)
    ensures
        notification_appname(*final(n)) == appname@,
        notification_summary(*final(n)) == notification_summary(*old(n)),
        notification_body(*final(n)) == notification_body(*old(n)),
        notification_timeout(*final(n)) == notification_timeout(*old(n)),
{
    n.appname(appname);
}

/// Calls `Notification::summary`, which overwrites the title line with a copy
/// of the given text and touches no other field.
#[verifier::external_body]
pub(crate) fn set_summary(n: &mut Notification, summary: &str)
    ensures
        notification_appname(*final(n)) == notification_appname(*old(n)),
        notification_summary(*final(n)) == summary@,
        notification_body(*final(n)) == notification_body(*old(n)),
        notification_timeout(*final(n)) == notification_timeout(*old(n)),
{
    n.summary(summary);
}

/// Calls `Notification::body`, which overwrites the message text with a copy
/// of the given text and touches no other field.
#[verifier::external_body]
pub(crate) fn set_body(n: &mut Notification, body: &str)
    ensures
        notification_appname(*final(n)) == notification_appname(*old(n)),
        notification_summary(*final(n)) == notification_summary(*old(n)),
        notification_body(*final(n)) == body@,
        notification_timeout(*final(n)) == notification_timeout(*old(n)),
{
    n.body(body);
}

/// Calls `Notification::timeout` with a number of milliseconds. `notify_rust`
/// turns a positive number into an expiry of that many milliseconds, zero into
/// "never" and a negative number into "server default", and touches no other
/// field.
#[verifier::external_body]
pub(crate) fn set_timeout(n: &mut Notification, millis: i32)
    ensures
        notification_appname(*final(n)) == notification_appname(*old(n)),
        notification_summary(*final(n)) == notification_summary(*old(n)),
        notification_body(*final(n)) == notification_body(*old(n)),
        notification_timeout(*final(n)) == (if millis < 0 { -1 } else { millis as int }),
{
    n.timeout(millis);
}

/// Calls `Notification::finalize`, which returns a complete copy of the
/// notification as it stands.
#[verifier::external_body]
pub(crate) fn finalize(n: &Notification) -> (copy: Notification)
    ensures
        notification_appname(copy) == notification_appname(*n),
        notification_summary(copy) == notification_summary(*n),
        notification_body(copy) == notification_body(*n),
        notification_timeout(copy) == notification_timeout(*n),
{
    n.finalize()
}

} // verus!
