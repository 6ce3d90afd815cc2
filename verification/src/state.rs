//! The timer state: viewport geometry, the fixed start and end instants,
//! the task label, the total duration and the remaining span, together
//! with its construction from user-supplied inputs.
use vstd::prelude::*;
use vstd::string::StrSliceExecFns;
use vstd::string::StringExecFns;

verus! {

/// The default total duration, twenty-five minutes, used when no
/// duration text is given.
pub const DEFAULT_DURATION_SECS: u64 = 1500;

/// The mutable timer record. Instants are wall-clock seconds; spans are
/// whole seconds.
pub struct State {
    pub width: u16,
    pub height: u16,
    pub start: u64,
    pub end: u64,
    pub task: Option<String>,
    pub duration: u64,
    pub remaining: u64,
}

/// The mathematical model of a `State`.
pub ghost struct StateView {
    pub width: int,
    pub height: int,
    pub start: int,
    pub end: int,
    pub task: Option<Seq<char>>,
    pub duration: int,
    pub remaining: int,
}

/// The model of an optional text.
pub open spec fn opt_text_view(t: Option<String>) -> Option<Seq<char>> {
    match t {
        Some(s) => Some(s@),
        None => None,
    }
}

impl View for State {
    type V = StateView;

    open spec fn view(&self) -> StateView {
        StateView {
            width: self.width as int,
            height: self.height as int,
            start: self.start as int,
            end: self.end as int,
            task: opt_text_view(self.task),
            duration: self.duration as int,
            remaining: self.remaining as int,
        }
    }
}

impl StateView {
    /// The state invariant: a positive duration, an end that sits exactly
    /// one duration after the start, and a remaining span never above the
    /// total.
    pub open spec fn wf(self) -> bool {
        &&& 0 < self.duration
        &&& self.end == self.start + self.duration
        &&& 0 <= self.remaining <= self.duration
        &&& 0 <= self.start
        &&& self.end <= u64::MAX
    }
}

/// A validation error at construction.
pub enum InitError {
    /// The duration text does not denote a usable positive duration.
    InvalidDuration(String),
}

/// The user-visible text of an `InitError`.
pub open spec fn spec_init_error_message(e: InitError) -> Seq<char> {
    match e {
        InitError::InvalidDuration(t) => "'"@ + t@ + "' is not a valid duration."@,
    }
}

impl InitError {
    /// The one-line message shown to the user.
    pub fn message(&self) -> (r: String)
        ensures
            r@ == spec_init_error_message(*self),
    {
        match self {
            InitError::InvalidDuration(t) => "'".to_owned().concat(t.as_str()).concat(
                "' is not a valid duration.",
            ),
        }
    }
}

/// The longest duration text handed to the parser. The bound keeps the
/// parser away from its one panicking corner (see `parse_duration_secs`);
/// longer texts are rejected as invalid without being parsed.
pub const MAX_DURATION_TEXT_CHARS: usize = 25;

/// The whole seconds of the span that `humantime` reads out of a duration
/// expression, or nothing when the text does not parse.
pub uninterp spec fn parsed_secs_of(s: Seq<char>) -> Option<u64>;

/// Relies on `humantime::parse_duration`: the parse is a pure function of
/// the characters of the text, and the whole seconds of the parsed span
/// are handed back. The parser checks every sum and product, with one
/// corner left open: when the spans sum to exactly `u64::MAX` whole
/// seconds and the accumulated nanoseconds land exactly on one more
/// second, its final `Duration::new` overflows and panics. Spelling that
/// many whole seconds takes at least twenty characters (a span count of
/// at least twelve digits, and the odd remainder forces a seconds span on
/// top) and bringing the nanosecond counter exactly to one second takes
/// at least six more (`1000ms`), so a text within the length bound cannot
/// reach that corner.
#[verifier::external_body]
fn parse_duration_secs(s: &str) -> (r: Option<u64>)
    requires
        s@.len() <= MAX_DURATION_TEXT_CHARS,
    ensures
        r == parsed_secs_of(s@),
{
    match humantime::parse_duration(s) {
        Ok(d) => Some(d.as_secs()),
        Err(_) => None,
    }
}

/// Builds the timer record from already-validated inputs: the countdown
/// starts at `now` and ends one duration later, with the full duration
/// remaining.
pub fn make_state(width: u16, height: u16, task: Option<String>, duration_secs: u64, now: u64) -> (
    s: State)
    requires
        0 < duration_secs,
        now + duration_secs <= u64::MAX,
    ensures
        s@.wf(),
        s@.width == width,
        s@.height == height,
        s@.task == opt_text_view(task),
        s@.start == now,
        s@.duration == duration_secs,
        s@.end == s@.start + s@.duration,
        s@.remaining == s@.duration,
{
    let end = now + duration_secs;
    State {
        width,
        height,
        start: now,
        end,
        task,
        duration: duration_secs,
        remaining: end - now,
    }
}

/// Builds the timer state from the CLI-equivalent inputs and the captured
/// current instant `now`. Absent duration text means twenty-five minutes.
/// Duration text that does not parse, text longer than
/// `MAX_DURATION_TEXT_CHARS` characters (never handed to the parser), a
/// zero duration, and a duration whose end would not fit the clock are
/// rejected with `InvalidDuration` carrying the original text, and the
/// timer does not start. Spans are kept in whole seconds: sub-second
/// parts of a duration text are dropped, so a purely sub-second text is
/// rejected as zero.
pub fn initialize_state(
    width: u16,
    height: u16,
    task: Option<String>,
    duration: Option<&str>,
    now: u64,
) -> (r: Result<State, InitError>)
    requires
        duration is None ==> now + DEFAULT_DURATION_SECS <= u64::MAX,
    ensures
        ({
            let parsed: Option<u64> = match duration {
                Some(t) => if t@.len() <= MAX_DURATION_TEXT_CHARS {
                    parsed_secs_of(t@)
                } else {
                    None
                },
                None => Some(DEFAULT_DURATION_SECS),
            };
            match r {
                Ok(s) => {
                    &&& parsed matches Some(d) && 0 < d && now + d <= u64::MAX
                    &&& s@.wf()
                    &&& s@.width == width
                    &&& s@.height == height
                    &&& s@.task == opt_text_view(task)
                    &&& s@.start == now
                    &&& s@.duration == parsed.unwrap()
                    &&& s@.end == s@.start + s@.duration
                    &&& s@.remaining == s@.duration
                },
                Err(e) => {
                    &&& duration matches Some(t)
                    &&& !(parsed matches Some(d) && 0 < d && now + d <= u64::MAX)
                    &&& e matches InitError::InvalidDuration(msg) && msg@ == duration.unwrap()@
                },
            }
        }),
{
    match duration {
        None => Ok(make_state(width, height, task, DEFAULT_DURATION_SECS, now)),
        Some(t) => {
            if t.unicode_len() > MAX_DURATION_TEXT_CHARS {
                return Err(InitError::InvalidDuration(t.to_owned()));
            }
            match parse_duration_secs(t) {
                Some(d) => {
                    if 0 < d && now <= u64::MAX - d {
                        Ok(make_state(width, height, task, d, now))
                    } else {
                        Err(InitError::InvalidDuration(t.to_owned()))
                    }
                },
                None => Err(InitError::InvalidDuration(t.to_owned())),
            }
        },
    }
}

} // verus!
