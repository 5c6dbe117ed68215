//! The decisions of the loop that drives a session. The loop itself belongs
//! to the program around the library: it polls the keyboard, reads the two
//! rate limiters, shows the framebuffer, switches the tone and sleeps. What
//! it does with the machine on each pass is decided here.

use vstd::prelude::*;
use crate::cpu::CPU;
use crate::keyboard::State;
use crate::tools::{frequency_of, rejection_of, slice_of, FrequencyTracker};

verus! {

/// The rate of the instruction cycle in Hz, where none is configured.
pub const CPU_FREQUENCY: &'static str = "500";

/// The rate in Hz at which the timers tick and the display and the tone are
/// refreshed, where none is configured.
pub const IO_FREQUENCY: &'static str = "60";

/// What the second half of a pass did with the machine.
#[derive(Clone, Copy, Debug, PartialEq, Eq, Structural)]
pub enum Pace {
    /// One instruction was executed. The word is there if it was found to be
    /// no instruction, for the loop to report, and the loop begins a new
    /// slice of the instruction rate.
    Stepped(Option<u16>),
    /// Nothing was executed: the loop sleeps for this many milliseconds, the
    /// rest of the slice of the instruction rate.
    Sleep(u64),
}

/// The text that configures a rate: `chosen`, or `default` where nothing was
/// chosen.
pub open spec fn configured(chosen: Option<&str>, default: &str) -> Seq<char> {
    match chosen {
        Some(text) => text@,
        None => default@,
    }
}

/// The two rate limiters of a session, the one of the instruction cycle
/// first, from the rates that were configured and the default rates where
/// none was. A rate that is no positive integer is rejected with a message
/// that quotes it; of two such rates the one of the instruction cycle is
/// reported.
pub fn trackers(cpu_freq: Option<&str>, io_freq: Option<&str>) -> (counters: Result<
    (FrequencyTracker, FrequencyTracker),
    String,
>)
    ensures
        match (
            frequency_of(configured(cpu_freq, CPU_FREQUENCY)),
            frequency_of(configured(io_freq, IO_FREQUENCY)),
        ) {
            (Some(cpu), Some(io)) => counters is Ok && counters->Ok_0.0@ == slice_of(cpu)
                && counters->Ok_0.1@ == slice_of(io),
            (None, _) => counters is Err && counters->Err_0@ == rejection_of(
                configured(cpu_freq, CPU_FREQUENCY),
            ),
            (Some(_), None) => counters is Err && counters->Err_0@ == rejection_of(
                configured(io_freq, IO_FREQUENCY),
            ),
        },
{
    let cpu_text = match cpu_freq {
        Some(text) => text,
        None => CPU_FREQUENCY,
    };
    let io_text = match io_freq {
        Some(text) => text,
        None => IO_FREQUENCY,
    };
    let cpu_counter = match FrequencyTracker::from_str(cpu_text) {
        Ok(counter) => counter,
        Err(error) => return Err(error),
    };
    let io_counter = match FrequencyTracker::from_str(io_text) {
        Ok(counter) => counter,
        Err(error) => return Err(error),
    };
    Ok((cpu_counter, io_counter))
}

/// The first half of a pass. `burnt` tells whether the slice of the refresh
/// rate is used up. If it is, both timers tick, and the result says whether
/// the tone is to sound; the loop then shows the framebuffer, switches the
/// tone and begins a new slice. If it is not, nothing happens.
pub fn refresh(cpu: &mut CPU, burnt: bool) -> (tone: Option<bool>)
    ensures
        burnt ==> final(cpu)@ == old(cpu)@.decrement_timers() && tone == Some(
            final(cpu)@.beeping(),
        ),
        !burnt ==> final(cpu)@ == old(cpu)@ && tone is None,
{
    if burnt {
        cpu.decrement_timers();
        Some(cpu.beeping())
    } else {
        None
    }
}

/// The second half of a pass. `burnt` tells whether the slice of the
/// instruction rate is used up, and `remaining` how many milliseconds are
/// left of it. If it is used up, the machine executes one instruction with
/// the keys `input`. If it is not, the machine is left alone and the loop is
/// told to sleep for the rest of the slice.
pub fn cycle(cpu: &mut CPU, burnt: bool, remaining: u64, input: &State) -> (pace: Pace)
    ensures
        burnt ==> (exists|random: u8| final(cpu)@ == old(cpu)@.step(input@, random)) && pace
            == Pace::Stepped(old(cpu)@.unknown_instruction()),
        burnt && !old(cpu)@.draws_random() ==> final(cpu)@ == old(cpu)@.step(input@, 0),
        !burnt ==> final(cpu)@ == old(cpu)@ && pace == Pace::Sleep(remaining),
{
    if burnt {
        Pace::Stepped(cpu.tick(input))
    } else {
        Pace::Sleep(remaining)
    }
}

} // verus!
