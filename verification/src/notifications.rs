//! Desktop notifications: what each one says. Sending is left to the caller.

use crate::text::{decimal, decimal_string};
use vstd::prelude::*;

verus! {

/// A desktop notification, ready to be sent.
#[derive(Debug)]
pub struct Notification {
    /// The headline.
    pub summary: String,
    /// The text below the headline.
    pub body: String,
    /// The name of the icon shown beside it.
    pub icon: String,
    /// How long it stays on screen, in milliseconds.
    pub timeout_ms: u32,
}

/// A notification with its texts as sequences of characters.
pub struct NotificationView {
    pub summary: Seq<char>,
    pub body: Seq<char>,
    pub icon: Seq<char>,
    pub timeout_ms: u32,
}

impl View for Notification {
    type V = NotificationView;

    open spec fn view(&self) -> NotificationView {
        NotificationView {
            summary: self.summary@,
            body: self.body@,
            icon: self.icon@,
            timeout_ms: self.timeout_ms,
        }
    }
}

/// The notification that this application shows under `summary` with `body`:
/// the application's icon beside it, five seconds on screen.
pub open spec fn notification(summary: Seq<char>, body: Seq<char>) -> NotificationView {
    NotificationView { summary, body, icon: "ro-start"@, timeout_ms: 5000 }
}

/// What tells the user that `count` updates wait.
pub open spec fn updates_available_body(count: nat) -> Seq<char> {
    decimal(count) + " update(s) are ready to install"@
}

impl Notification {
    /// The notification that this application shows under `summary` with `body`.
    pub fn new(summary: &str, body: &str) -> (r: Notification)
        ensures
            r@ == notification(summary@, body@),
    {
        Notification {
            summary: String::from_str(summary),
            body: String::from_str(body),
            icon: String::from_str("ro-start"),
            timeout_ms: 5000,
        }
    }
}

/// The notification that `count` updates wait to be installed.
pub fn notify_updates_available(count: usize) -> (r: Notification)
    ensures
        r@ == notification("Updates Available"@, updates_available_body(count as nat)),
{
    let mut body = decimal_string(count as u64);
    body.append(" update(s) are ready to install");
    Notification::new("Updates Available", body.as_str())
}

/// The notification that something went well.
pub fn notify_success(message: &str) -> (r: Notification)
    ensures
        r@ == notification("Success"@, message@),
{
    Notification::new("Success", message)
}

/// The notification that something failed.
pub fn notify_error(message: &str) -> (r: Notification)
    ensures
        r@ == notification("Error"@, message@),
{
    Notification::new("Error", message)
}

} // verus!
