//! What a desktop notification is shown with.
//!
//! Showing the notification is the platform's part. What is decided here is
//! what it says, and how long it stays.

use vstd::prelude::*;
use vstd::utf8::{decode_utf8, valid_utf8};
use crate::string::c_str_to_string;

verus! {

/// How urgent a notification is.
#[derive(Clone, Copy, Debug, PartialEq, Eq, Structural)]
pub enum WryNotificationUrgency {
    Low,
    Normal,
    Critical,
}

/// How long a notification stays, where the host has a say.
#[derive(Clone, Copy, Debug, PartialEq, Eq, Structural)]
pub enum NotificationTimeout {
    /// Until the user dismisses it.
    Never,
    /// For this many milliseconds.
    Milliseconds(u32),
}

/// A notification as the host passed it. Texts are the bytes of C strings,
/// or nothing where the pointer was null.
#[derive(Clone, Debug, PartialEq, Eq)]
pub struct WryNotificationOptions {
    pub title: Option<Vec<u8>>,
    pub body: Option<Vec<u8>>,
    pub icon: Option<Vec<u8>>,
    pub timeout_ms: i32,
    pub urgency: WryNotificationUrgency,
}

/// A notification as it is shown.
#[derive(Clone, Debug, PartialEq, Eq)]
pub struct NotificationPlan {
    pub summary: String,
    pub body: String,
    pub icon: Option<String>,
    /// How long it stays, or nothing to leave that to the platform.
    pub timeout: Option<NotificationTimeout>,
    pub urgency: WryNotificationUrgency,
}

/// What a notification plan holds.
pub struct NotificationPlanView {
    pub summary: Seq<char>,
    pub body: Seq<char>,
    pub icon: Option<Seq<char>>,
    pub timeout: Option<NotificationTimeout>,
    pub urgency: WryNotificationUrgency,
}

impl View for NotificationPlan {
    type V = NotificationPlanView;

    open spec fn view(&self) -> NotificationPlanView {
        NotificationPlanView {
            summary: self.summary@,
            body: self.body@,
            icon: match self.icon {
                Some(path) => Some(path@),
                None => None,
            },
            timeout: self.timeout,
            urgency: self.urgency,
        }
    }
}

/// How long a notification stays, from the host's number: zero means
/// until dismissed, a positive number is a time in milliseconds, and a
/// negative number leaves it to the platform.
pub open spec fn spec_notification_timeout(timeout_ms: i32) -> Option<NotificationTimeout> {
    if timeout_ms == 0 {
        Some(NotificationTimeout::Never)
    } else if timeout_ms > 0 {
        Some(NotificationTimeout::Milliseconds(timeout_ms as u32))
    } else {
        None
    }
}

#[verifier::when_used_as_spec(spec_notification_timeout)]
pub fn notification_timeout(timeout_ms: i32) -> (timeout: Option<NotificationTimeout>)
    ensures
        timeout == spec_notification_timeout(timeout_ms),
{
    if timeout_ms == 0 {
        Some(NotificationTimeout::Never)
    } else if timeout_ms > 0 {
        Some(NotificationTimeout::Milliseconds(timeout_ms as u32))
    } else {
        None
    }
}

/// The text behind a C string that may be null: the text where the bytes
/// are UTF-8, and nothing otherwise.
pub open spec fn text_behind(bytes: Option<Vec<u8>>) -> Option<Seq<char>> {
    match bytes {
        Some(given) => if valid_utf8(given@) {
            Some(decode_utf8(given@))
        } else {
            None
        },
        None => None,
    }
}

/// The text behind a C string, or an empty text where there is none.
pub open spec fn text_or_empty(bytes: Option<Vec<u8>>) -> Seq<char> {
    match text_behind(bytes) {
        Some(text) => text,
        None => Seq::empty(),
    }
}

fn text_from(bytes: &Option<Vec<u8>>) -> (text: Option<String>)
    ensures
        match text {
            Some(present) => text_behind(*bytes) == Some(present@),
            None => text_behind(*bytes) is None,
        },
{
    match bytes {
        Some(given) => c_str_to_string(Some(given.as_slice())),
        None => None,
    }
}

/// Decides what a notification is shown with. On a null pointer there is
/// nothing to show. A title or body that is null or not UTF-8 is shown
/// empty.
pub fn notification_plan(options: Option<&WryNotificationOptions>) -> (plan: Option<
    NotificationPlan,
>)
    ensures
        plan is Some <==> options is Some,
        plan matches Some(shown) ==> shown@ == (NotificationPlanView {
            summary: text_or_empty(options->0.title),
            body: text_or_empty(options->0.body),
            icon: text_behind(options->0.icon),
            timeout: spec_notification_timeout(options->0.timeout_ms),
            urgency: options->0.urgency,
        }),
{
    match options {
        Some(given) => {
            let summary = match text_from(&given.title) {
                Some(text) => text,
                None => String::new(),
            };
            let body = match text_from(&given.body) {
                Some(text) => text,
                None => String::new(),
            };
            Some(
                NotificationPlan {
                    summary,
                    body,
                    icon: text_from(&given.icon),
                    timeout: notification_timeout(given.timeout_ms),
                    urgency: given.urgency,
                },
            )
        },
        None => None,
    }
}

} // verus!
