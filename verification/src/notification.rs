//! Visual notification types for pane-level alerts (build failures, task
//! completions and the like).

use vstd::prelude::*;
use vstd::string::*;

verus! {

#[verifier::external_type_specification]
#[verifier::external_body]
pub struct ExSystemTime(std::time::SystemTime);

/// What `str::to_lowercase` makes of a text.
pub uninterp spec fn lowercase(text: Seq<char>) -> Seq<char>;

/// `str::to_lowercase`: the lowercase equivalent of a text, by the Unicode
/// rules.
#[verifier::external_body]
fn to_lowercase(text: &str) -> (lower: String)
    ensures
        lower@ == lowercase(text@),
{
    text.to_lowercase()
}

/// `SystemTime::now`: the reading of the system clock. Nothing is claimed of
/// it.
#[verifier::external_body]
fn clock_now() -> (now: std::time::SystemTime) {
    std::time::SystemTime::now()
}

/// `SystemTime::duration_since` the Unix epoch: the time between the epoch
/// and `time`, or nothing where `time` lies before the epoch.
#[verifier::external_body]
fn since_epoch(time: &std::time::SystemTime) -> (elapsed: Option<std::time::Duration>) {
    time.duration_since(std::time::UNIX_EPOCH).ok()
}

/// `Duration::as_millis`: the whole milliseconds that a duration holds.
#[verifier::external_body]
fn whole_millis(elapsed: &std::time::Duration) -> (millis: u128) {
    elapsed.as_millis()
}

/// Visual notification style determining color and icon.
#[derive(Debug, Clone, Copy, PartialEq, Eq, Structural)]
pub enum NotificationStyle {
    /// Error notification (red border, cross icon).
    Error,
    /// Success notification (green border, check icon).
    Success,
    /// Warning notification (yellow border, warning icon).
    Warning,
}

impl NotificationStyle {
    /// The ANSI escape sequence that selects the colour of a style.
    pub open spec fn spec_color_code(self) -> Seq<char> {
        match self {
            NotificationStyle::Error => "\x1b[31m"@,
            NotificationStyle::Success => "\x1b[32m"@,
            NotificationStyle::Warning => "\x1b[33m"@,
        }
    }

    /// The icon of a style.
    pub open spec fn spec_icon(self) -> Seq<char> {
        match self {
            NotificationStyle::Error => "✗"@,
            NotificationStyle::Success => "✓"@,
            NotificationStyle::Warning => "⚠"@,
        }
    }

    /// The name of a style.
    pub open spec fn spec_name(self) -> Seq<char> {
        match self {
            NotificationStyle::Error => "error"@,
            NotificationStyle::Success => "success"@,
            NotificationStyle::Warning => "warning"@,
        }
    }

    /// The style that a name in lower case stands for.
    pub open spec fn named(name: Seq<char>) -> Option<NotificationStyle> {
        if name == "error"@ {
            Some(NotificationStyle::Error)
        } else if name == "success"@ {
            Some(NotificationStyle::Success)
        } else if name == "warning"@ {
            Some(NotificationStyle::Warning)
        } else {
            None
        }
    }

    /// Get ANSI color code for this style.
    pub fn color_code(&self) -> (code: &'static str)
        ensures
            code@ == self.spec_color_code(),
    {
        match self {
            NotificationStyle::Error => "\x1b[31m",
            NotificationStyle::Success => "\x1b[32m",
            NotificationStyle::Warning => "\x1b[33m",
        }
    }

    /// Get icon character for this style.
    pub fn icon(&self) -> (icon: &'static str)
        ensures
            icon@ == self.spec_icon(),
    {
        match self {
            NotificationStyle::Error => "✗",
            NotificationStyle::Success => "✓",
            NotificationStyle::Warning => "⚠",
        }
    }

    /// The style with exactly this name: "error", "success" or "warning".
    pub fn from_lowercase(name: &str) -> (style: Option<Self>)
        ensures
            style == Self::named(name@),
    {
        let name = String::from_str(name);
        if name == String::from_str("error") {
            Some(NotificationStyle::Error)
        } else if name == String::from_str("success") {
            Some(NotificationStyle::Success)
        } else if name == String::from_str("warning") {
            Some(NotificationStyle::Warning)
        } else {
            None
        }
    }

    /// Parse from CLI string argument, whatever its case.
    pub fn from_str(s: &str) -> (style: Option<Self>)
        ensures
            style == Self::named(lowercase(s@)),
    {
        let lower = to_lowercase(s);
        Self::from_lowercase(lower.as_str())
    }

    /// The name of this style, in lower case.
    pub fn to_string(&self) -> (name: String)
        ensures
            name@ == self.spec_name(),
    {
        match self {
            NotificationStyle::Error => String::from_str("error"),
            NotificationStyle::Success => String::from_str("success"),
            NotificationStyle::Warning => String::from_str("warning"),
        }
    }
}

/// Pane notification with style and message.
#[derive(Debug, Clone, PartialEq, Eq)]
pub struct Notification {
    pub style: NotificationStyle,
    pub message: String,
    /// Timestamp when notification was created (milliseconds since epoch).
    pub timestamp: u64,
}

/// The timestamp for the reading of the system clock: what
/// [`timestamp_from`] makes of the milliseconds since the Unix epoch, or of
/// nothing where the clock stands before the epoch. The reading is the
/// clock's, so nothing is said of which timestamp comes out.
fn unix_millis() -> u64 {
    let now = clock_now();
    let elapsed_millis: Option<u128> = match since_epoch(&now) {
        Some(elapsed) => Some(whole_millis(&elapsed)),
        None => None,
    };
    timestamp_from(elapsed_millis)
}

/// The timestamp for a time that lies `elapsed_millis` milliseconds after
/// the Unix epoch: that number, reduced to its lowest 64 bits. A time before
/// the epoch, for which there is no such number, gets zero.
pub open spec fn spec_timestamp_from(elapsed_millis: Option<u128>) -> u64 {
    match elapsed_millis {
        Some(millis) => (millis % 0x1_0000_0000_0000_0000) as u64,
        None => 0,
    }
}

/// Computes [`spec_timestamp_from`].
pub fn timestamp_from(elapsed_millis: Option<u128>) -> (timestamp: u64)
    ensures
        timestamp == spec_timestamp_from(elapsed_millis),
        elapsed_millis matches Some(millis) ==> (millis <= u64::MAX ==> timestamp == millis),
{
    match elapsed_millis {
        Some(millis) => {
            let low: u128 = millis % 0x1_0000_0000_0000_0000u128;
            low as u64
        },
        None => 0,
    }
}

impl Notification {
    /// A notification with this style and message, stamped with the time of
    /// its creation.
    pub fn new(style: NotificationStyle, message: String) -> (notification: Self)
        ensures
            notification.style == style,
            notification.message == message,
    {
        Notification { style, message, timestamp: unix_millis() }
    }

    /// Create error notification.
    pub fn error(message: &str) -> (notification: Self)
        ensures
            notification.style == NotificationStyle::Error,
            notification.message@ == message@,
    {
        Self::new(NotificationStyle::Error, String::from_str(message))
    }

    /// Create success notification.
    pub fn success(message: &str) -> (notification: Self)
        ensures
            notification.style == NotificationStyle::Success,
            notification.message@ == message@,
    {
        Self::new(NotificationStyle::Success, String::from_str(message))
    }

    /// Create warning notification.
    pub fn warning(message: &str) -> (notification: Self)
        ensures
            notification.style == NotificationStyle::Warning,
            notification.message@ == message@,
    {
        Self::new(NotificationStyle::Warning, String::from_str(message))
    }
}

impl Default for Notification {
    /// An error notification without a message.
    fn default() -> (notification: Self)
        ensures
            notification.style == NotificationStyle::Error,
            notification.message@ == Seq::<char>::empty(),
    {
        let notification = Self::new(NotificationStyle::Error, String::new());
        notification
    }
}

} // verus!
