use vstd::prelude::*;

pub mod due;
pub mod laws;
pub mod session;
pub mod spaced_repetition;
pub mod utilities;

pub use spaced_repetition::Evaluation;
pub use spaced_repetition::compute_sr_data;
pub use spaced_repetition::generate_noise;
pub use utilities::get_current_date;

verus! {

/// Hard floor of the ease factor, in hundredths (1.30).
pub const MIN_E_FACTOR: i64 = 130;

/// Ease factor of a freshly created item, in hundredths (2.50).
pub const DEFAULT_E_FACTOR: i64 = 250;

/// Largest ease factor the scheduler accepts as input; keeps the
/// interval computation inside `i64`.
pub const E_FACTOR_LIMIT: i64 = 1_000_000_000;

/// Largest review interval, in days, the scheduler accepts as input;
/// keeps the interval computation inside `i64`.
pub const INTERVAL_LIMIT: i64 = 1_000_000_000;

/// Largest magnitude of a day number the library works with; keeps date
/// differences inside `i64`.
pub const DATE_LIMIT: i64 = 4_000_000_000;

/// Lifecycle mode of an item's schedule state: `New` items have never been
/// reviewed successfully, `Learning` items are on the growing-interval track,
/// and `Failed` items await a successful retry.
#[derive(Clone, Copy, Debug, PartialEq, Eq, Structural)]
pub enum Mode {
    New,
    Learning,
    Failed,
}

/// The name of a mode, as a character sequence.
pub open spec fn mode_name(m: Mode) -> Seq<char> {
    match m {
        Mode::New => "New"@,
        Mode::Learning => "Learning"@,
        Mode::Failed => "Failed"@,
    }
}

/// The mode stored under a given name; an unrecognised name counts as `New`.
pub open spec fn mode_of_name(s: Seq<char>) -> Mode {
    if s == mode_name(Mode::Learning) {
        Mode::Learning
    } else if s == mode_name(Mode::Failed) {
        Mode::Failed
    } else {
        Mode::New
    }
}

impl Mode {
    /// The mode's name, used by the persistence layer as the stored value.
    pub fn to_string(&self) -> (r: String)
        ensures
            r@ == mode_name(*self),
    {
        match self {
            Mode::New => String::from_str("New"),
            Mode::Learning => String::from_str("Learning"),
            Mode::Failed => String::from_str("Failed"),
        }
    }

    /// Parses a stored mode name, the inverse of `to_string`; anything
    /// unrecognised counts as `New`.
    pub fn from_string(s: &String) -> (r: Mode)
        ensures
            r == mode_of_name(s@),
    {
        if s.eq(&String::from_str("Learning")) {
            Mode::Learning
        } else if s.eq(&String::from_str("Failed")) {
            Mode::Failed
        } else {
            Mode::New
        }
    }
}

/// Per-item schedule state. Dates are day numbers: counts of days since the
/// start of the common era, the time of day discarded. The ease factor is a
/// fixed-point value in hundredths, so `250` stands for a multiplier of 2.50.
#[derive(Clone, Copy, Debug, PartialEq)]
pub struct SRData {
    /// Day the item was first created; never changes afterwards.
    pub created: i64,
    /// Day of the most recent review, or `None` if never reviewed.
    pub last_review: Option<i64>,
    /// Lifecycle mode.
    pub mode: Mode,
    /// Total number of completed reviews.
    pub review_count: i64,
    /// Count of consecutive successful reviews since the item last left
    /// `New` or `Failed`.
    pub n: i64,
    /// Difficulty multiplier in hundredths; never below `MIN_E_FACTOR`.
    pub e_factor: i64,
    /// Days until the item becomes due again; always at least 1.
    pub interval: i64,
}

/// Mathematical model of a schedule state, over unbounded integers.
pub ghost struct SRDataV {
    pub created: int,
    pub last_review: Option<int>,
    pub mode: Mode,
    pub review_count: int,
    pub n: int,
    pub e_factor: int,
    pub interval: int,
}

impl View for SRData {
    type V = SRDataV;

    open spec fn view(&self) -> SRDataV {
        SRDataV {
            created: self.created as int,
            last_review: match self.last_review {
                Some(d) => Some(d as int),
                None => None,
            },
            mode: self.mode,
            review_count: self.review_count as int,
            n: self.n as int,
            e_factor: self.e_factor as int,
            interval: self.interval as int,
        }
    }
}

/// Invariant of every well-formed schedule state: the ease factor respects
/// its hard floor, the interval is at least one day, and the counters are
/// non-negative.
pub open spec fn sr_inv(s: SRDataV) -> bool {
    &&& s.e_factor >= MIN_E_FACTOR
    &&& s.interval >= 1
    &&& s.n >= 0
    &&& s.review_count >= 0
}

/// A day number small enough that differences of two of them fit in `i64`.
pub open spec fn date_ok(d: int) -> bool {
    -DATE_LIMIT <= d <= DATE_LIMIT
}

impl Default for SRData {
    /// A fresh schedule state: never reviewed, `New`, default ease, one-day
    /// interval, created on the current date.
    fn default() -> (r: SRData)
        ensures
            r.last_review is None,
            r.mode == Mode::New,
            r.review_count == 0,
            r.n == 0,
            r.e_factor == DEFAULT_E_FACTOR,
            r.interval == 1,
            sr_inv(r@),
    {
        SRData {
            created: utilities::get_current_date(),
            last_review: None,
            mode: Mode::New,
            review_count: 0,
            n: 0,
            e_factor: DEFAULT_E_FACTOR,
            interval: 1,
        }
    }
}

/// One learnable item: a task description, the exact expected input, optional
/// accompanying text, and the item's owned schedule state.
#[derive(Clone, Debug, PartialEq)]
pub struct Command {
    pub id: Option<i64>,
    pub task: String,
    pub context: Option<String>,
    pub prompt: Option<String>,
    pub command: String,
    pub response: Option<String>,
    pub tags: Option<Vec<String>>,
    pub sr_data: SRData,
}

impl Command {
    /// Whether the item is due: at least `interval` days have passed since
    /// its last review.
    pub fn is_pending(&self, today: i64) -> (r: bool)
        requires
            self.sr_data.last_review is Some,
            date_ok(today as int),
            date_ok(self.sr_data@.last_review->0),
        ensures
            r <==> today - self.sr_data@.last_review->0 >= self.sr_data@.interval,
    {
        let duration: i64 = today - self.sr_data.last_review.unwrap();
        duration >= self.sr_data.interval
    }
}

} // verus!
