//! The pacer: a fixed delay between message starts, derived from a target
//! frequency, with the time already spent on a message taken off the pause.
use vstd::prelude::*;

verus! {

/// Nanoseconds in one second.
pub const NANOS_PER_SECOND: u64 = 1_000_000_000;

/// A configuration that cannot drive a run.
#[derive(Clone, Copy, Debug, PartialEq, Eq, Structural)]
pub enum ConfigError {
    /// The target frequency was zero, which gives no finite delay.
    ZeroFrequency,
}

/// `a / b`, rounded up: the least `d` with `d * b >= a`.
pub open spec fn ceil_div(a: nat, b: nat) -> nat
    recommends
        b > 0,
{
    if a % b == 0 {
        a / b
    } else {
        a / b + 1
    }
}

/// The delay between message starts at `frequency` Hz, in nanoseconds:
/// one second divided by the frequency, rounded up.
pub open spec fn delay_for(frequency: nat) -> nat {
    ceil_div(NANOS_PER_SECOND as nat, frequency)
}

/// The pause that follows a message that took `elapsed` of a `delay`: the rest
/// of the delay, or nothing once the delay is used up. A missed deadline is not
/// carried over to the next message.
pub open spec fn pause_for(delay: nat, elapsed: nat) -> nat {
    if elapsed < delay {
        (delay - elapsed) as nat
    } else {
        0
    }
}

/// Holds a fixed-rate cadence of messages.
pub struct Pacer {
    delay_ns: u64,
}

impl Pacer {
    /// The delay between message starts, in nanoseconds.
    pub closed spec fn spec_delay(&self) -> nat {
        self.delay_ns as nat
    }

    /// A pacer for `frequency` messages a second; a zero frequency is
    /// refused.
    pub fn new(frequency: u64) -> (r: Result<Pacer, ConfigError>)
        ensures
            frequency == 0 <==> r is Err,
            r matches Err(e) ==> e == ConfigError::ZeroFrequency,
            r matches Ok(p) ==> p.spec_delay() == delay_for(frequency as nat),
    {
        if frequency == 0 {
            return Err(ConfigError::ZeroFrequency);
        }
        let delay_ns = if NANOS_PER_SECOND % frequency == 0 {
            NANOS_PER_SECOND / frequency
        } else {
            NANOS_PER_SECOND / frequency + 1
        };
        Ok(Pacer { delay_ns })
    }

    /// The delay between message starts, in nanoseconds.
    pub fn delay_ns(&self) -> (r: u64)
        ensures
            r == self.spec_delay(),
    {
        self.delay_ns
    }

    /// The pause before the next message, when the current one took
    /// `elapsed_ns` nanoseconds since it started.
    pub fn pause_ns(&self, elapsed_ns: u64) -> (r: u64)
        ensures
            r == pause_for(self.spec_delay(), elapsed_ns as nat),
            r <= self.spec_delay(),
    {
        if elapsed_ns < self.delay_ns {
            self.delay_ns - elapsed_ns
        } else {
            0
        }
    }
}

} // verus!
