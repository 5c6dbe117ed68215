//! The rate limiter that paces the emulation: a time slice of a length that
//! a frequency fixes, and the clock that tells how much of the slice is
//! gone.

use vstd::prelude::*;
use vstd::string::StringExecFns;
use std::time::{Duration, Instant};

verus! {

/// `std::time::Instant`, a point in time of the monotonic clock.
#[verifier::external_type_specification]
#[verifier::external_body]
pub struct ExInstant(Instant);

/// `Instant::now` reads the clock. Nothing is claimed of the point in time
/// that it returns.
pub assume_specification[ Instant::now ]() -> (now: Instant)
;

/// `Instant::elapsed` reads the clock. Nothing is claimed of the time that
/// it finds to have gone by.
pub assume_specification[ Instant::elapsed ](start: &Instant) -> (elapsed: Duration)
;

/// `Duration::as_millis` gives a duration in whole milliseconds. Nothing is
/// claimed of the number.
pub assume_specification[ Duration::as_millis ](duration: &Duration) -> (millis: u128)
;

/// The value of a string of decimal digits.
pub open spec fn digits_value(digits: Seq<char>) -> nat
    decreases digits.len(),
{
    if digits.len() == 0 {
        0
    } else {
        digits_value(digits.drop_last()) * 10 + (digits.last() as nat - '0' as nat) as nat
    }
}

/// Whether `text` is one decimal digit or more, and nothing else.
pub open spec fn is_digits(text: Seq<char>) -> bool {
    text.len() > 0 && forall|i: int| 0 <= i < text.len() ==> '0' <= #[trigger] text[i] <= '9'
}

/// The number that `text` denotes as a `u64`: `text` is decimal digits, with
/// or without a `+` in front of them, and their value fits the type.
pub open spec fn decimal_u64(text: Seq<char>) -> Option<u64> {
    let digits = if text.len() > 0 && text[0] == '+' {
        text.skip(1)
    } else {
        text
    };
    if is_digits(digits) && digits_value(digits) <= u64::MAX {
        Some(digits_value(digits) as u64)
    } else {
        None
    }
}

/// Calls `str::parse::<u64>`. As the standard library documents it, the text
/// is parsed when it is an optional `+` sign followed by decimal digits only,
/// at least one, whose value fits a `u64`; an empty text, any other
/// character and an overflow are errors.
#[verifier::external_body]
fn parse_u64(text: &str) -> (value: Option<u64>)
    ensures
        value == decimal_u64(text@),
{
    text.parse::<u64>().ok()
}

/// The frequency in Hz that `text` configures: a positive integer.
pub open spec fn frequency_of(text: Seq<char>) -> Option<u64> {
    match decimal_u64(text) {
        Some(frequency) => if frequency > 0 {
            Some(frequency)
        } else {
            None
        },
        None => None,
    }
}

/// The message that rejects `text` as a frequency.
pub open spec fn rejection_of(text: Seq<char>) -> Seq<char> {
    "Couldn't parse value '"@ + text + "' as a frequency."@
}

/// The length in milliseconds of the time slice of a rate of `frequency` Hz.
pub open spec fn slice_of(frequency: u64) -> u64 {
    (1000u64 / frequency) as u64
}

/// By how many milliseconds a slice of `slice` milliseconds is overrun when
/// `elapsed` milliseconds have gone by since its start: 0 as long as the
/// slice is not used up. An overrun beyond the type's range counts as the
/// largest value of the type.
pub open spec fn overrun_of(slice: u64, elapsed: u128) -> i128 {
    if elapsed <= slice {
        0
    } else if elapsed - slice <= i128::MAX {
        (elapsed - slice) as i128
    } else {
        i128::MAX
    }
}

/// Whether a slice of `slice` milliseconds is used up when `elapsed`
/// milliseconds have gone by since its start.
pub open spec fn used_up(slice: u64, elapsed: u128) -> bool {
    elapsed > slice
}

/// How many milliseconds of a slice of `slice` milliseconds are left when
/// `elapsed` milliseconds have gone by since its start.
pub open spec fn remainder_of(slice: u64, elapsed: u128) -> u64 {
    if elapsed < slice {
        (slice - elapsed) as u64
    } else {
        0
    }
}

/// By how many milliseconds a slice of `slice` milliseconds is overrun after
/// `elapsed` milliseconds. The overrun is positive exactly when more time
/// has gone by than the slice is long.
pub fn overrun(slice: u64, elapsed: u128) -> (burnt: i128)
    ensures
        burnt == overrun_of(slice, elapsed),
        burnt > 0 <==> used_up(slice, elapsed),
{
    if elapsed <= slice as u128 {
        0
    } else {
        let over = elapsed - slice as u128;
        if over <= i128::MAX as u128 {
            over as i128
        } else {
            i128::MAX
        }
    }
}

/// How many milliseconds of a slice of `slice` milliseconds are left after
/// `elapsed` milliseconds.
pub fn remainder(slice: u64, elapsed: u128) -> (left: u64)
    ensures
        left == remainder_of(slice, elapsed),
{
    if elapsed < slice as u128 {
        slice - elapsed as u64
    } else {
        0
    }
}

/// A rate limiter: a time slice, and the point in time at which the current
/// slice began. Its view is the length of the slice in milliseconds.
pub struct FrequencyTracker {
    slice: u64,
    counter: Instant,
}

impl View for FrequencyTracker {
    type V = u64;

    closed spec fn view(&self) -> u64 {
        self.slice
    }
}

impl FrequencyTracker {
    /// A tracker for a rate of `frequency` Hz, whose first slice begins now.
    /// The frequency has to be positive.
    pub fn new(frequency: u64) -> (tracker: Self)
        requires
            frequency > 0,
        ensures
            tracker@ == slice_of(frequency),
    {
        Self { slice: 1000 / frequency, counter: Instant::now() }
    }

    /// A tracker for the rate that `frequency` configures. The text has to
    /// denote a positive integer; any other text is rejected with a message
    /// that quotes it.
    pub fn from_str(frequency: &str) -> (tracker: Result<Self, String>)
        ensures
            match frequency_of(frequency@) {
                Some(value) => tracker is Ok && tracker->Ok_0@ == slice_of(value),
                None => tracker is Err && tracker->Err_0@ == rejection_of(frequency@),
            },
    {
        match parse_u64(frequency) {
            Some(value) if value > 0 => Ok(Self::new(value)),
            _ => {
                let message = String::from_str("Couldn't parse value '").concat(frequency).concat(
                    "' as a frequency.",
                );
                Err(message)
            },
        }
    }

    /// The length of the slice in milliseconds.
    pub fn slice(&self) -> (slice: u64)
        ensures
            slice == self@,
    {
        self.slice
    }

    /// By how many milliseconds the current slice is overrun at the time of
    /// the call: 0 as long as the slice is not used up.
    pub fn burnt_duration(&self) -> (burnt: i128)
        ensures
            exists|elapsed: u128| burnt == #[trigger] overrun_of(self@, elapsed),
            burnt >= 0,
    {
        let elapsed = self.counter.elapsed().as_millis();
        let burnt = overrun(self.slice, elapsed);
        assert(burnt == overrun_of(self@, elapsed));
        burnt
    }

    /// How many milliseconds of the current slice are left at the time of the
    /// call.
    pub fn remaining_duration(&self) -> (left: u64)
        ensures
            exists|elapsed: u128| left == #[trigger] remainder_of(self@, elapsed),
            left <= self@,
    {
        let elapsed = self.counter.elapsed().as_millis();
        let left = remainder(self.slice, elapsed);
        assert(left == remainder_of(self@, elapsed));
        left
    }

    /// Whether the current slice is used up at the time of the call.
    pub fn is_burnt(&self) -> (burnt: bool)
        ensures
            exists|elapsed: u128| burnt == #[trigger] used_up(self@, elapsed),
    {
        let elapsed = self.counter.elapsed().as_millis();
        let burnt = overrun(self.slice, elapsed) > 0;
        assert(burnt == used_up(self@, elapsed));
        burnt
    }

    /// Begins a new slice now: at the instant that the clock gives, of which
    /// nothing is claimed. The length of the slice stays.
    pub fn reset(&mut self)
        ensures
            final(self)@ == old(self)@,
    {
        self.reset_at(Instant::now())
    }

    /// The point in time at which the current slice began.
    pub closed spec fn started(&self) -> Instant {
        self.counter
    }

    /// Begins a new slice at `start`: the time that the tracker finds to have
    /// gone by is from then on the time since `start`. The length of the
    /// slice stays.
    pub fn reset_at(&mut self, start: Instant)
        ensures
            final(self).started() == start,
            final(self)@ == old(self)@,
    {
        self.counter = start
    }
}

} // verus!
