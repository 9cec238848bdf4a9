//! A message that is shown for a fixed time.

use crate::decimal::{char_of_digit, decimal_digits, decimal_of, digit_char};
use crate::text::string_of;
use vstd::prelude::*;
use vstd::string::StringExecFns;

verus! {

/// How long a notification is shown, in milliseconds.
pub const NOTIFICATION_LIFETIME_MS: u64 = 3000;

/// What a `Notification` holds, its message as a sequence of characters.
pub ghost struct NotificationModel {
    pub message: Seq<char>,
    pub created_at: u64,
}

/// A message and the time at which it was made, in milliseconds on a clock
/// of the caller's choice.
#[derive(Debug)]
pub struct Notification {
    pub message: String,
    pub created_at: u64,
}

impl View for Notification {
    type V = NotificationModel;

    open spec fn view(&self) -> NotificationModel {
        NotificationModel { message: self.message@, created_at: self.created_at }
    }
}

/// A notification made at `created_at` is over at `now`: its lifetime has
/// passed. Before `created_at` it is not over.
pub open spec fn expired_at(created_at: u64, now: u64) -> bool {
    now - created_at >= NOTIFICATION_LIFETIME_MS
}

/// A notification is shown up to the end of its lifetime, and no longer.
pub proof fn lemma_notification_window(created_at: u64, now: u64)
    ensures
        created_at <= now < created_at + NOTIFICATION_LIFETIME_MS ==> !expired_at(created_at, now),
        now >= created_at + NOTIFICATION_LIFETIME_MS ==> expired_at(created_at, now),
        now < created_at ==> !expired_at(created_at, now),
{
}

impl Notification {
    /// The notification `message`, made at `now`.
    pub fn new(message: String, now: u64) -> (notification: Notification)
        ensures
            notification@ == (NotificationModel { message: message@, created_at: now }),
    {
        Notification { message, created_at: now }
    }

    /// Whether this notification is over at `now`.
    pub fn is_expired(&self, now: u64) -> (over: bool)
        ensures
            over == expired_at(self.created_at, now),
    {
        now >= self.created_at && now - self.created_at >= NOTIFICATION_LIFETIME_MS
    }
}

/// `millis` milliseconds in hundredths of a second, rounded to the nearest;
/// half a hundredth goes up.
pub open spec fn hundredths_of(millis: u64) -> nat {
    if millis % 10 >= 5 {
        (millis / 10 + 1) as nat
    } else {
        (millis / 10) as nat
    }
}

/// `hundredths` of a second written in seconds, with two fractional digits.
pub open spec fn seconds_text(hundredths: nat) -> Seq<char> {
    decimal_digits(hundredths / 100) + seq![
        '.',
        digit_char(hundredths / 10 % 10),
        digit_char(hundredths % 10),
    ]
}

/// The message after an analysis that took `elapsed_ms` milliseconds.
pub open spec fn analysis_message(elapsed_ms: u64) -> Seq<char> {
    "File analyzed in "@ + seconds_text(hundredths_of(elapsed_ms)) + seq!['s']
}

/// The message after an analysis that took `elapsed_ms` milliseconds: the
/// time in seconds, with two fractional digits.
pub fn analysis_message_for(elapsed_ms: u64) -> (text: String)
    ensures
        text@ == analysis_message(elapsed_ms),
{
    let round: u64 = if elapsed_ms % 10 >= 5 {
        1
    } else {
        0
    };
    let hundredths: u64 = elapsed_ms / 10 + round;
    let mut text = String::from_str("File analyzed in ");
    let seconds = string_of(&decimal_of(hundredths / 100));
    text.append(seconds.as_str());
    text.push('.');
    text.push(char_of_digit((hundredths / 10 % 10) as u8));
    text.push(char_of_digit((hundredths % 10) as u8));
    text.push('s');
    text
}

} // verus!
