//! The data the bot and the web interface work on: race weekends, their
//! sessions and the Discord messages the bot keeps up to date.
use vstd::prelude::*;

verus! {

/// Earliest instant (whole seconds since the Unix epoch) that the calendar
/// library can represent: -262143-01-01T00:00:00Z.
pub const MIN_UTC_SECS: i64 = -8334601315200;

/// Latest whole second that the calendar library can represent:
/// +262142-12-31T23:59:59Z.
pub const MAX_UTC_SECS: i64 = 8210266876799;

/// An instant in UTC, as whole seconds since the Unix epoch and the
/// nanoseconds within that second.
#[derive(Clone, Copy, Debug, PartialEq, Eq, Structural)]
pub struct Timestamp {
    pub secs: i64,
    pub nanos: u32,
}

impl Timestamp {
    /// The instant lies in the representable range. A leap second is kept,
    /// as chrono keeps it, as 10^9 nanoseconds or more (below 2 * 10^9) in
    /// the last second of a minute.
    pub open spec fn wf(self) -> bool {
        &&& MIN_UTC_SECS <= self.secs <= MAX_UTC_SECS
        &&& self.nanos < 2_000_000_000
        &&& (self.nanos >= 1_000_000_000 ==> self.secs % 60 == 59)
    }

    /// The instant `d >= 0` whole seconds later, as chrono adds seconds:
    /// from a leap second, a positive number of seconds is counted from the
    /// start of the leap second itself, so the result is an ordinary second.
    pub open spec fn after_secs(self, d: int) -> Timestamp {
        if self.nanos >= 1_000_000_000 && d > 0 {
            Timestamp { secs: (self.secs + d) as i64, nanos: (self.nanos - 1_000_000_000) as u32 }
        } else {
            Timestamp { secs: (self.secs + d) as i64, nanos: self.nanos }
        }
    }

    /// The instant `d` whole seconds later (`DateTime + TimeDelta::seconds`).
    pub fn plus_secs(&self, d: i64) -> (r: Timestamp)
        requires
            self.wf(),
            0 <= d,
            self.secs + d <= MAX_UTC_SECS,
        ensures
            r == self.after_secs(d as int),
            r.wf(),
            d > 0 ==> r.nanos < 1_000_000_000,
    {
        if self.nanos >= 1_000_000_000 && d > 0 {
            Timestamp { secs: self.secs + d, nanos: self.nanos - 1_000_000_000 }
        } else {
            Timestamp { secs: self.secs + d, nanos: self.nanos }
        }
    }

    /// Strict chronological order.
    pub open spec fn before(self, other: Timestamp) -> bool {
        ||| self.secs < other.secs
        ||| (self.secs == other.secs && self.nanos < other.nanos)
    }

    /// Whole seconds of the instant (what `timestamp()` reports).
    pub fn timestamp(&self) -> (r: i64)
        ensures
            r == self.secs,
    {
        self.secs
    }
}

/// The racing series a weekend belongs to.
#[derive(Clone, Copy, Debug, PartialEq, Eq, Structural)]
pub enum Series {
    F1,
    F2,
    F3,
    F1Academy,
}

impl Series {
    pub open spec fn text(self) -> Seq<char> {
        match self {
            Series::F1 => "F1"@,
            Series::F2 => "F2"@,
            Series::F3 => "F3"@,
            Series::F1Academy => "F1Academy"@,
        }
    }

    /// The name under which the series is shown and stored.
    pub fn as_str(&self) -> (r: &'static str)
        ensures
            r@ == self.text(),
    {
        match self {
            Series::F1 => "F1",
            Series::F2 => "F2",
            Series::F3 => "F3",
            Series::F1Academy => "F1Academy",
        }
    }
}

/// Whether a weekend still lies ahead.
#[derive(Clone, Copy, Debug, PartialEq, Eq, Structural)]
pub enum WeekendStatus {
    Open,
    Done,
}

impl WeekendStatus {
    pub open spec fn text(self) -> Seq<char> {
        match self {
            WeekendStatus::Open => "Open"@,
            WeekendStatus::Done => "Done"@,
        }
    }

    pub fn as_str(&self) -> (r: &'static str)
        ensures
            r@ == self.text(),
    {
        match self {
            WeekendStatus::Open => "Open",
            WeekendStatus::Done => "Done",
        }
    }
}

/// Whether a session has been run.
#[derive(Clone, Copy, Debug, PartialEq, Eq, Structural)]
pub enum SessionStatus {
    Open,
    Finished,
}

impl SessionStatus {
    pub open spec fn text(self) -> Seq<char> {
        match self {
            SessionStatus::Open => "Open"@,
            SessionStatus::Finished => "Finished"@,
        }
    }

    pub fn as_str(&self) -> (r: &'static str)
        ensures
            r@ == self.text(),
    {
        match self {
            SessionStatus::Open => "Open",
            SessionStatus::Finished => "Finished",
        }
    }
}

/// Whether the start of a session is announced.
#[derive(Clone, Copy, Debug, PartialEq, Eq, Structural)]
pub enum SessionNotifySettings {
    Notify,
    Ignore,
}

impl SessionNotifySettings {
    pub open spec fn text(self) -> Seq<char> {
        match self {
            SessionNotifySettings::Notify => "Notify"@,
            SessionNotifySettings::Ignore => "Ignore"@,
        }
    }

    pub fn as_str(&self) -> (r: &'static str)
        ensures
            r@ == self.text(),
    {
        match self {
            SessionNotifySettings::Notify => "Notify",
            SessionNotifySettings::Ignore => "Ignore",
        }
    }
}

/// What a Discord message posted by the bot is for.
#[derive(Clone, Copy, Debug, PartialEq, Eq, Structural)]
pub enum MessageKind {
    Calendar,
    Weekend,
    Notification,
}

impl MessageKind {
    pub open spec fn text(self) -> Seq<char> {
        match self {
            MessageKind::Calendar => "Calendar"@,
            MessageKind::Weekend => "Weekend"@,
            MessageKind::Notification => "Notification"@,
        }
    }

    pub fn as_str(&self) -> (r: &'static str)
        ensures
            r@ == self.text(),
    {
        match self {
            MessageKind::Calendar => "Calendar",
            MessageKind::Weekend => "Weekend",
            MessageKind::Notification => "Notification",
        }
    }
}

/// A race weekend ("event").
#[derive(Clone, Debug)]
pub struct Weekend {
    pub id: u64,
    pub name: String,
    pub year: i32,
    pub start_date: Timestamp,
    /// Discord emoji, such as `:flag_mc:`.
    pub icon: String,
    pub series: Series,
    pub status: WeekendStatus,
}

/// One session of a weekend (practice, qualifying, race, ...).
#[derive(Clone, Debug)]
pub struct Session {
    pub id: u64,
    pub weekend_id: i64,
    pub start_time: Timestamp,
    pub name: String,
    /// Length in seconds.
    pub duration: u32,
    pub notify: SessionNotifySettings,
    pub status: SessionStatus,
    pub created_at: Timestamp,
}

impl Session {
    /// The instant the session ends can be represented, so adding the
    /// duration to the start time cannot overflow.
    pub open spec fn fits(self) -> bool {
        &&& self.start_time.wf()
        &&& self.start_time.secs + self.duration <= MAX_UTC_SECS
    }
}

/// A Discord message that the bot posted and keeps track of.
#[derive(Clone, Debug)]
pub struct Message {
    pub id: u64,
    pub discord_id: String,
    pub discord_channel: String,
    pub kind: MessageKind,
    pub series: Series,
    pub expires_at: Timestamp,
    pub created_at: Timestamp,
    /// Decimal hash of the content last written to the message.
    pub hash: String,
}

} // verus!
