//! The task record and its lifecycle state.
//!
//! A task is one unit of work, keyed by a unique job name, tracked from the
//! moment the feed hands it over until its local and engine-side resources
//! are reclaimed.

use vstd::prelude::*;

verus! {

/// A calendar date, held as plain year / month / day fields.
#[derive(Clone, Copy, PartialEq, Eq, Debug)]
pub struct Date {
    pub year: i32,
    pub month: u8,
    pub day: u8,
}

/// The number of days in a month of the given year.
pub open spec fn spec_days_in_month(year: int, month: int) -> int {
    if month == 2 {
        if spec_is_leap_year(year) {
            29
        } else {
            28
        }
    } else if month == 4 || month == 6 || month == 9 || month == 11 {
        30
    } else {
        31
    }
}

/// The Gregorian leap-year rule.
pub open spec fn spec_is_leap_year(year: int) -> bool {
    (year % 4 == 0 && year % 100 != 0) || year % 400 == 0
}

impl Date {
    /// A valid calendar date; the year range keeps later arithmetic simple.
    pub open spec fn valid(self) -> bool {
        &&& 0 <= self.year <= 9999
        &&& 1 <= self.month <= 12
        &&& 1 <= self.day <= spec_days_in_month(self.year as int, self.month as int)
    }

    /// Decides [`Date::valid`].
    pub fn check(&self) -> (r: bool)
        ensures
            r == self.valid(),
    {
        let leap = (self.year % 4 == 0 && self.year % 100 != 0) || self.year % 400 == 0;
        let max_day: u8 = if self.month == 2 {
            if leap {
                29
            } else {
                28
            }
        } else if self.month == 4 || self.month == 6 || self.month == 9 || self.month == 11 {
            30
        } else {
            31
        };
        0 <= self.year && self.year <= 9999 && 1 <= self.month && self.month <= 12 && 1 <= self.day
            && self.day <= max_day
    }

    pub fn new(year: i32, month: u8, day: u8) -> (d: Date)
        requires
            (Date { year, month, day }).valid(),
        ensures
            d == (Date { year, month, day }),
            d.valid(),
    {
        Date { year, month, day }
    }
}

/// Lifecycle state of one task, a tagged union with one active variant.
#[derive(Clone, PartialEq, Eq, Debug)]
pub enum TaskState {
    /// Queued, not yet submitted to the transfer engine.
    Pending,
    /// An engine handle was obtained and the transfer is in progress.
    Downloading,
    /// A timeout fired during submission or transfer; terminal until an
    /// operator intervenes.
    Blocked,
    /// Transfer complete, payload on local storage, awaiting publish.
    Downloaded { file_path: String, info_hash: String },
    /// Published, awaiting retention expiry.
    Finished { file_path: String, info_hash: String, finish_time: u64 },
}

impl TaskState {
    /// A deep copy; the derived clone carries no specification for
    /// string-bearing fields, so this is written by hand.
    pub fn duplicate(&self) -> (r: TaskState)
        ensures
            r == *self,
    {
        match self {
            TaskState::Pending => TaskState::Pending,
            TaskState::Downloading => TaskState::Downloading,
            TaskState::Blocked => TaskState::Blocked,
            TaskState::Downloaded { file_path, info_hash } => TaskState::Downloaded {
                file_path: file_path.clone(),
                info_hash: info_hash.clone(),
            },
            TaskState::Finished { file_path, info_hash, finish_time } => TaskState::Finished {
                file_path: file_path.clone(),
                info_hash: info_hash.clone(),
                finish_time: *finish_time,
            },
        }
    }

    /// Position of a state along the one-way lifecycle; transitions made by
    /// the workers, the upload coordinator and the cleanup sweep only move
    /// forward in this order.
    pub open spec fn rank(self) -> int {
        match self {
            TaskState::Pending => 0,
            TaskState::Downloading => 1,
            TaskState::Blocked => 2,
            TaskState::Downloaded { .. } => 2,
            TaskState::Finished { .. } => 3,
        }
    }
}

/// One tracked job. The job name is the key under which the record is
/// stored and is not repeated here.
#[derive(Clone, PartialEq, Eq, Debug)]
pub struct Task {
    /// Magnet-style locator handed to the transfer engine.
    pub url: String,
    /// Series title used to build the publish path.
    pub anime_title: String,
    /// Weekday label used to build the publish path.
    pub weekday: String,
    /// First air date, used for the quarter bucket of the publish path.
    pub air_date: Date,
    /// Numeric id used to enrich the display filename.
    pub bangumi_id: u64,
    /// Timestamp of first insertion; preserved across re-insertion.
    pub added_at: u64,
    /// Current lifecycle state.
    pub state: TaskState,
}

/// Descriptive metadata of one series, as the feed collaborator hands it
/// over.
#[derive(Clone, PartialEq, Eq, Debug)]
pub struct Anime {
    /// Feed address of the series, used when a new series is discovered.
    pub rss: String,
    /// Weekday label of the release slot.
    pub weekday: String,
    /// Series title.
    pub name: String,
    /// First air date.
    pub air_date: Date,
    /// Numeric id for the display-filename lookup.
    pub bangumi_tv_id: u64,
}

impl Anime {
    /// A deep copy with a specification, see [`TaskState::duplicate`].
    pub fn duplicate(&self) -> (r: Anime)
        ensures
            r == *self,
    {
        Anime {
            rss: self.rss.clone(),
            weekday: self.weekday.clone(),
            name: self.name.clone(),
            air_date: self.air_date,
            bangumi_tv_id: self.bangumi_tv_id,
        }
    }
}

/// One feed item: the locator to fetch plus the series it belongs to.
#[derive(Clone, PartialEq, Eq, Debug)]
pub struct Subscription {
    /// Magnet-style locator.
    pub magnet: String,
    /// The series the item belongs to.
    pub anime: Anime,
}

impl Subscription {
    /// A deep copy with a specification, see [`TaskState::duplicate`].
    pub fn duplicate(&self) -> (r: Subscription)
        ensures
            r == *self,
    {
        Subscription { magnet: self.magnet.clone(), anime: self.anime.duplicate() }
    }
}

impl Task {
    /// A deep copy with a specification, see [`TaskState::duplicate`].
    pub fn duplicate(&self) -> (r: Task)
        ensures
            r == *self,
    {
        Task {
            url: self.url.clone(),
            anime_title: self.anime_title.clone(),
            weekday: self.weekday.clone(),
            air_date: self.air_date,
            bangumi_id: self.bangumi_id,
            added_at: self.added_at,
            state: self.state.duplicate(),
        }
    }
}

} // verus!
