//! The status line: the outcome of the last operation, shown for a few
//! seconds.
//!
//! Time is a count of milliseconds on a clock that never runs backwards. The
//! caller reads the clock and passes the reading in.

use vstd::prelude::*;

use crate::text::join3;

verus! {

/// For how many milliseconds a status is shown: three seconds. It expires
/// once it is older.
pub const STATUS_TTL_MILLIS: u64 = 3000;

/// How an operation ended, or that it is still under way.
#[derive(Copy, Clone, Debug, PartialEq, Eq, Structural)]
pub enum OperationStatusType {
    Info,
    Success,
    Error,
}

impl Default for OperationStatusType {
    fn default() -> (kind: Self)
        ensures
            kind == OperationStatusType::Info,
    {
        OperationStatusType::Info
    }
}

impl OperationStatusType {
    pub open spec fn spec_emoji(self) -> Seq<char> {
        match self {
            OperationStatusType::Info => "\u{2139}\u{fe0f} "@,
            OperationStatusType::Success => "\u{2705}"@,
            OperationStatusType::Error => "\u{274c}"@,
        }
    }

    /// The sign that stands before a message of this kind.
    pub fn get_emoji(&self) -> (s: &'static str)
        ensures
            s@ == self.spec_emoji(),
    {
        match self {
            OperationStatusType::Info => "\u{2139}\u{fe0f} ",
            OperationStatusType::Success => "\u{2705}",
            OperationStatusType::Error => "\u{274c}",
        }
    }
}

/// What a status holds: its message, its kind, and the reading of the clock
/// at which it was set.
pub struct StatusView {
    pub message: Seq<char>,
    pub status_type: OperationStatusType,
    pub timestamp: u64,
}

impl StatusView {
    /// The status that a message set at `now` leaves behind.
    pub open spec fn set_at(message: Seq<char>, status_type: OperationStatusType, now: u64) -> Self {
        StatusView { message, status_type, timestamp: now }
    }

    /// The status without a message, as of `now`.
    pub open spec fn cleared_at(now: u64) -> Self {
        StatusView { message: Seq::empty(), status_type: OperationStatusType::Info, timestamp: now }
    }

    /// The milliseconds that have passed since the status was set. A clock reading
    /// from before that counts as no time at all.
    pub open spec fn age(self, now: u64) -> nat {
        if now >= self.timestamp {
            (now - self.timestamp) as nat
        } else {
            0
        }
    }

    /// Whether the status has a message that is older than it may get.
    pub open spec fn is_expired(self, now: u64) -> bool {
        self.age(now) > STATUS_TTL_MILLIS && self.message.len() > 0
    }

    /// The status as it stands after a look at it at `now`: cleared if it had
    /// expired, untouched otherwise.
    pub open spec fn observed_at(self, now: u64) -> Self {
        if self.is_expired(now) {
            Self::cleared_at(now)
        } else {
            self
        }
    }

    /// The message, or `Ready` where there is none.
    pub open spec fn text(self) -> Seq<char> {
        if self.message.len() == 0 {
            "Ready"@
        } else {
            self.message
        }
    }

    /// The line on the screen: `Ready` where there is no message, else the
    /// sign of the kind, a space and the message.
    pub open spec fn line(self) -> Seq<char> {
        if self.message.len() == 0 {
            "Ready"@
        } else {
            self.status_type.spec_emoji() + " "@ + self.message
        }
    }
}

/// The outcome of the last operation. There is one at a time: a new one
/// takes the place of the one before.
pub struct OperationStatus {
    pub message: String,
    pub status_type: OperationStatusType,
    timestamp: u64,
}

impl View for OperationStatus {
    type V = StatusView;

    closed spec fn view(&self) -> StatusView {
        StatusView {
            message: self.message@,
            status_type: self.status_type,
            timestamp: self.timestamp,
        }
    }
}

impl Default for OperationStatus {
    /// The status without a message, set at the start of the clock.
    fn default() -> (status: Self)
        ensures
            status@ == StatusView::cleared_at(0),
    {
        Self { message: String::new(), status_type: OperationStatusType::Info, timestamp: 0 }
    }
}

impl OperationStatus {
    /// The message, empty where there is none.
    pub fn message(&self) -> (text: &String)
        ensures
            text@ == self@.message,
    {
        &self.message
    }

    /// The kind of the status.
    pub fn status_type(&self) -> (kind: OperationStatusType)
        ensures
            kind == self@.status_type,
    {
        self.status_type
    }

    /// The reading of the clock at which the status was set.
    pub fn timestamp(&self) -> (at: u64)
        ensures
            at == self@.timestamp,
    {
        self.timestamp
    }

    /// Whether the status has a message and that message is older than
    /// [`STATUS_TTL_MILLIS`] at `now`. A status without a message never expires.
    pub fn is_expired_or_empty(&self, now: u64) -> (expired: bool)
        ensures
            expired == self@.is_expired(now),
    {
        let age: u64 = if now >= self.timestamp {
            now - self.timestamp
        } else {
            0
        };
        age > STATUS_TTL_MILLIS && !self.message.as_str().is_empty()
    }

    /// Puts a new message in the place of the old one. Its age is zero at
    /// `now`.
    pub fn set(&mut self, message: String, status_type: OperationStatusType, now: u64)
        ensures
            final(self)@ == StatusView::set_at(message@, status_type, now),
    {
        self.message = message;
        self.status_type = status_type;
        self.timestamp = now;
    }

    /// Clears the status if it has expired at `now`, and leaves it alone if
    /// not.
    pub fn expire(&mut self, now: u64)
        ensures
            final(self)@ == old(self)@.observed_at(now),
    {
        if self.is_expired_or_empty(now) {
            self.message = String::new();
            self.status_type = OperationStatusType::Info;
            self.timestamp = now;
        }
    }

    /// The message and kind to show at `now`. A status that has expired is
    /// cleared first; a status without a message reads `Ready`.
    pub fn current_or_default(&mut self, now: u64) -> (shown: (String, OperationStatusType))
        ensures
            final(self)@ == old(self)@.observed_at(now),
            shown.0@ == final(self)@.text(),
            shown.1 == final(self)@.status_type,
    {
        self.expire(now);
        let text = if self.message.as_str().is_empty() {
            String::from_str("Ready")
        } else {
            self.message.clone()
        };
        (text, self.status_type)
    }

    /// The line to draw at `now`, with its kind. A status that has expired is
    /// cleared first.
    pub fn render_line(&mut self, now: u64) -> (shown: (String, OperationStatusType))
        ensures
            final(self)@ == old(self)@.observed_at(now),
            shown.0@ == final(self)@.line(),
            shown.1 == final(self)@.status_type,
    {
        self.expire(now);
        let text = if self.message.as_str().is_empty() {
            String::from_str("Ready")
        } else {
            join3(self.status_type.get_emoji(), " ", self.message.as_str())
        };
        (text, self.status_type)
    }
}

} // verus!
