//! The scheduling engine: what runs on which channel, how often, and when a
//! channel may next run.

use vstd::prelude::*;

verus! {

/// The unit of a [`Frequency`].
#[derive(Debug, Clone, Copy, PartialEq, Eq)]
pub enum Unit {
    Seconds,
    Minutes,
}

/// How often a script runs: an amount of seconds or of minutes.
#[derive(Debug, Clone, Copy, PartialEq, Eq)]
pub struct Frequency {
    amount: usize,
    unit: Unit,
}

impl Frequency {
    /// The amount the frequency was made with.
    pub closed spec fn amount(&self) -> usize {
        self.amount
    }

    /// The unit the frequency was made with.
    pub closed spec fn unit(&self) -> Unit {
        self.unit
    }

    /// The interval in whole seconds: a minute is sixty of them.
    pub open spec fn seconds(&self) -> nat {
        match self.unit() {
            Unit::Seconds => self.amount() as nat,
            Unit::Minutes => (self.amount() * 60) as nat,
        }
    }

    /// The frequency of `amount` seconds or minutes.
    pub fn new(amount: usize, unit: Unit) -> (frequency: Self)
        ensures
            frequency.amount() == amount,
            frequency.unit() == unit,
    {
        Frequency { amount, unit }
    }

    /// The interval in whole seconds, or `None` if it is more than a `u64` holds.
    pub fn checked_to_seconds(&self) -> (seconds: Option<u64>)
        ensures
            match seconds {
                Some(seconds) => seconds == self.seconds(),
                None => self.seconds() > u64::MAX,
            },
    {
        match self.unit {
            Unit::Seconds => Some(self.to_seconds()),
            Unit::Minutes => {
                if self.amount as u64 <= u64::MAX / 60 {
                    Some(self.to_seconds())
                } else {
                    None
                }
            },
        }
    }

    /// The interval in whole seconds.
    pub fn to_seconds(&self) -> (seconds: u64)
        requires
            self.seconds() <= u64::MAX,
        ensures
            seconds == self.seconds(),
    {
        match self.unit {
            Unit::Seconds => self.amount as u64,
            Unit::Minutes => (self.amount as u64) * 60,
        }
    }
}

/// A script that runs when its button is pressed.
#[derive(Debug, Clone, PartialEq, Eq)]
pub struct ExecuteScriptRules {
    pub script: String,
    pub args: Vec<String>,
}

impl ExecuteScriptRules {
    /// The rules that run `script` with `args`.
    pub fn new(script: String, args: Vec<String>) -> (rules: Self)
        ensures
            rules.script == script,
            rules.args == args,
    {
        ExecuteScriptRules { script, args }
    }
}

/// A script that runs periodically and whose outcome the panel shows.
#[derive(Debug, Clone, PartialEq, Eq)]
pub struct AutoScriptRules {
    pub script: String,
    pub args: Vec<String>,
    pub freq: Frequency,
}

impl AutoScriptRules {
    /// The rules that run `script` with `args` once every `freq`.
    pub fn new(script: String, args: Vec<String>, freq: Frequency) -> (rules: Self)
        ensures
            rules.script == script,
            rules.args == args,
            rules.freq == freq,
    {
        AutoScriptRules { script, args, freq }
    }
}

/// The whole configuration: one optional script per LED, one for the
/// display, one per button.
#[derive(Debug, Clone, PartialEq, Eq)]
pub struct Rules {
    pub led_green: Option<AutoScriptRules>,
    pub led_blue: Option<AutoScriptRules>,
    pub led_red: Option<AutoScriptRules>,
    pub display: Option<AutoScriptRules>,
    pub button0: Option<ExecuteScriptRules>,
    pub button1: Option<ExecuteScriptRules>,
    pub button2: Option<ExecuteScriptRules>,
    pub button3: Option<ExecuteScriptRules>,
}

impl Rules {
    /// The configuration with the given script, or none, on each channel.
    pub fn new(
        led_green: Option<AutoScriptRules>,
        led_blue: Option<AutoScriptRules>,
        led_red: Option<AutoScriptRules>,
        display: Option<AutoScriptRules>,
        button0: Option<ExecuteScriptRules>,
        button1: Option<ExecuteScriptRules>,
        button2: Option<ExecuteScriptRules>,
        button3: Option<ExecuteScriptRules>,
    ) -> (rules: Self)
        ensures
            rules == (Rules {
                led_green,
                led_blue,
                led_red,
                display,
                button0,
                button1,
                button2,
                button3,
            }),
    {
        Rules { led_green, led_blue, led_red, display, button0, button1, button2, button3 }
    }
}

} // verus!
