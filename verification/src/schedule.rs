//! When each periodically run channel may next run.
//!
//! A point in time is a count of nanoseconds since the Unix epoch; the epoch
//! itself is the earliest instant there is. A channel is due at `now` when its
//! next allowed run is not after `now`. Readiness is derived from the time of
//! each check, never counted down, so a late or irregular check does no harm.

use vstd::prelude::*;

verus! {

/// Nanoseconds in a second.
pub const NANOS_PER_SECOND: u128 = 1_000_000_000;

/// No reading of the clock exceeds this count of nanoseconds: the largest
/// span of time that `std::time::Duration` holds.
pub const MAX_CLOCK_NANOS: u128 = 18_446_744_073_709_551_615_999_999_999;

/// A channel that runs its script periodically.
#[derive(Debug, Clone, Copy, PartialEq, Eq)]
pub enum Channel {
    RedLed,
    BlueLed,
    GreenLed,
    Display,
}

impl Channel {
    /// What the channel is called in messages.
    pub open spec fn name_text(&self) -> Seq<char> {
        match *self {
            Channel::RedLed => "Red LED"@,
            Channel::BlueLed => "Blue LED"@,
            Channel::GreenLed => "Green LED"@,
            Channel::Display => "Display"@,
        }
    }

    /// What the channel is called in messages.
    pub fn name(&self) -> (name: &'static str)
        ensures
            name@ == self.name_text(),
    {
        match self {
            Channel::RedLed => "Red LED",
            Channel::BlueLed => "Blue LED",
            Channel::GreenLed => "Green LED",
            Channel::Display => "Display",
        }
    }
}

/// The next allowed run of each periodic channel.
#[derive(Debug, Clone, Copy, PartialEq, Eq)]
pub struct NextExecution {
    led_blue: u128,
    led_red: u128,
    led_green: u128,
    display: u128,
}

/// Reads the system clock with `std::time::SystemTime::now` and gives the
/// time since the Unix epoch in nanoseconds, or `None` if the clock stands
/// before the epoch. Nothing is claimed of the reading but that it fits a
/// `Duration`, whose seconds are a `u64` and whose nanoseconds stay below a
/// second.
#[verifier::external_body]
fn clock_nanos() -> (reading: Option<u128>)
    ensures
        reading matches Some(nanos) ==> nanos <= MAX_CLOCK_NANOS,
{
    match std::time::SystemTime::now().duration_since(std::time::UNIX_EPOCH) {
        Ok(elapsed) => Some(elapsed.as_nanos()),
        Err(_) => None,
    }
}

/// The point in time that a reading of the clock stands for: the reading
/// itself, or the epoch where the clock stands before it.
pub open spec fn instant_of(reading: Option<u128>) -> u128 {
    match reading {
        Some(nanos) => nanos,
        None => 0,
    }
}

/// The point in time that a reading of the clock stands for. A clock that
/// stands before the epoch reads as the epoch, the earliest instant there is.
pub fn instant(reading: Option<u128>) -> (nanos: u128)
    ensures
        nanos == instant_of(reading),
{
    match reading {
        Some(nanos) => nanos,
        None => 0,
    }
}

/// The current time by the system clock. Which time that is, the clock
/// decides; whatever it reads, the result lies within the clock's range.
pub fn now() -> (nanos: u128)
    ensures
        nanos <= MAX_CLOCK_NANOS,
{
    instant(clock_nanos())
}

impl NextExecution {
    /// The next allowed run of `channel`.
    pub closed spec fn next_run(&self, channel: Channel) -> u128 {
        match channel {
            Channel::RedLed => self.led_red,
            Channel::BlueLed => self.led_blue,
            Channel::GreenLed => self.led_green,
            Channel::Display => self.display,
        }
    }

    /// `channel` is due at `now`: its next allowed run is not after `now`.
    pub open spec fn is_due(&self, channel: Channel, now: u128) -> bool {
        self.next_run(channel) <= now
    }

    /// Every channel may run from the earliest instant on.
    pub open spec fn is_fresh(&self) -> bool {
        forall|channel: Channel| #[trigger] self.next_run(channel) == 0
    }

    /// `self` is `before` with `channel` reset at `now` for `seconds` seconds:
    /// that channel may next run `seconds` after `now`, the others as before.
    pub open spec fn is_reset_of(
        &self,
        before: NextExecution,
        channel: Channel,
        now: u128,
        seconds: u64,
    ) -> bool {
        &&& self.next_run(channel) == now + seconds * NANOS_PER_SECOND
        &&& forall|other: Channel|
            other != channel ==> #[trigger] self.next_run(other) == before.next_run(other)
    }

    /// A schedule on which every channel is due at once.
    pub fn new() -> (next: Self)
        ensures
            next.is_fresh(),
    {
        NextExecution { led_blue: 0, led_red: 0, led_green: 0, display: 0 }
    }

    /// Whether `channel` is due at `now`.
    pub fn is_ready_at(&self, channel: Channel, now: u128) -> (due: bool)
        ensures
            due == self.is_due(channel, now),
    {
        match channel {
            Channel::RedLed => self.led_red <= now,
            Channel::BlueLed => self.led_blue <= now,
            Channel::GreenLed => self.led_green <= now,
            Channel::Display => self.display <= now,
        }
    }

    /// Resets `channel` at `now`: it may next run `seconds` seconds later.
    pub fn reset_at(&mut self, channel: Channel, now: u128, seconds: u64)
        requires
            now + seconds * NANOS_PER_SECOND <= u128::MAX,
        ensures
            final(self).is_reset_of(*old(self), channel, now, seconds),
    {
        let next: u128 = now + (seconds as u128) * NANOS_PER_SECOND;
        match channel {
            Channel::RedLed => {
                self.led_red = next;
            },
            Channel::BlueLed => {
                self.led_blue = next;
            },
            Channel::GreenLed => {
                self.led_green = next;
            },
            Channel::Display => {
                self.display = next;
            },
        }
    }

    /// Whether `channel` is due by the system clock.
    pub fn is_ready(&self, channel: Channel) -> (due: bool)
        ensures
            exists|now: u128| now <= MAX_CLOCK_NANOS && due == #[trigger] self.is_due(channel, now),
            self.next_run(channel) == 0 ==> due,
    {
        let now = now();
        self.is_ready_at(channel, now)
    }

    /// Resets `channel` at the system clock's time: it may next run `seconds`
    /// seconds from now.
    pub fn reset(&mut self, channel: Channel, seconds: u64)
        ensures
            exists|now: u128|
                now <= MAX_CLOCK_NANOS && #[trigger] final(self).is_reset_of(
                    *old(self),
                    channel,
                    now,
                    seconds,
                ),
    {
        let now = now();
        self.reset_at(channel, now, seconds);
    }

    /// Whether the red LED is due by the system clock.
    pub fn is_red_led_ready(&self) -> (due: bool)
        ensures
            exists|now: u128|
                now <= MAX_CLOCK_NANOS && due == #[trigger] self.is_due(Channel::RedLed, now),
            self.next_run(Channel::RedLed) == 0 ==> due,
    {
        self.is_ready(Channel::RedLed)
    }

    /// Resets the red LED at the system clock's time for `seconds` seconds.
    pub fn reset_red_led(&mut self, seconds: u64)
        ensures
            exists|now: u128|
                now <= MAX_CLOCK_NANOS && #[trigger] final(self).is_reset_of(
                    *old(self),
                    Channel::RedLed,
                    now,
                    seconds,
                ),
    {
        self.reset(Channel::RedLed, seconds)
    }

    /// Whether the blue LED is due by the system clock.
    pub fn is_blue_led_ready(&self) -> (due: bool)
        ensures
            exists|now: u128|
                now <= MAX_CLOCK_NANOS && due == #[trigger] self.is_due(Channel::BlueLed, now),
            self.next_run(Channel::BlueLed) == 0 ==> due,
    {
        self.is_ready(Channel::BlueLed)
    }

    /// Resets the blue LED at the system clock's time for `seconds` seconds.
    pub fn reset_blue_led(&mut self, seconds: u64)
        ensures
            exists|now: u128|
                now <= MAX_CLOCK_NANOS && #[trigger] final(self).is_reset_of(
                    *old(self),
                    Channel::BlueLed,
                    now,
                    seconds,
                ),
    {
        self.reset(Channel::BlueLed, seconds)
    }

    /// Whether the green LED is due by the system clock.
    pub fn is_green_led_ready(&self) -> (due: bool)
        ensures
            exists|now: u128|
                now <= MAX_CLOCK_NANOS && due == #[trigger] self.is_due(Channel::GreenLed, now),
            self.next_run(Channel::GreenLed) == 0 ==> due,
    {
        self.is_ready(Channel::GreenLed)
    }

    /// Resets the green LED at the system clock's time for `seconds` seconds.
    pub fn reset_green_led(&mut self, seconds: u64)
        ensures
            exists|now: u128|
                now <= MAX_CLOCK_NANOS && #[trigger] final(self).is_reset_of(
                    *old(self),
                    Channel::GreenLed,
                    now,
                    seconds,
                ),
    {
        self.reset(Channel::GreenLed, seconds)
    }

    /// Whether the display is due by the system clock.
    pub fn is_display_ready(&self) -> (due: bool)
        ensures
            exists|now: u128|
                now <= MAX_CLOCK_NANOS && due == #[trigger] self.is_due(Channel::Display, now),
            self.next_run(Channel::Display) == 0 ==> due,
    {
        self.is_ready(Channel::Display)
    }

    /// Resets the display at the system clock's time for `seconds` seconds.
    pub fn reset_display(&mut self, seconds: u64)
        ensures
            exists|now: u128|
                now <= MAX_CLOCK_NANOS && #[trigger] final(self).is_reset_of(
                    *old(self),
                    Channel::Display,
                    now,
                    seconds,
                ),
    {
        self.reset(Channel::Display, seconds)
    }
}

/// A fresh schedule has every channel due at every instant.
pub proof fn lemma_fresh_is_due(next: NextExecution, channel: Channel, now: u128)
    requires
        next.is_fresh(),
    ensures
        next.is_due(channel, now),
{
    assert(next.next_run(channel) == 0);
}

/// After a reset at `reset_time` for `seconds` seconds, the channel is due at
/// `check` exactly if `seconds` seconds have passed since the reset.
pub proof fn lemma_reset_cools_down(
    before: NextExecution,
    after: NextExecution,
    channel: Channel,
    reset_time: u128,
    seconds: u64,
    check: u128,
)
    requires
        after.is_reset_of(before, channel, reset_time, seconds),
    ensures
        after.is_due(channel, check) <==> check >= reset_time + seconds * NANOS_PER_SECOND,
{
}

/// A reset of one channel leaves the readiness of every other as it was.
pub proof fn lemma_reset_keeps_others(
    before: NextExecution,
    after: NextExecution,
    channel: Channel,
    reset_time: u128,
    seconds: u64,
    other: Channel,
    check: u128,
)
    requires
        after.is_reset_of(before, channel, reset_time, seconds),
        other != channel,
    ensures
        after.is_due(other, check) == before.is_due(other, check),
{
    assert(after.next_run(other) == before.next_run(other));
}

} // verus!
