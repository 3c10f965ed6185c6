//! The decisions of one polling tick: which channels run, what their
//! scripts' outcomes put on the panel, and which button scripts start.
//!
//! The caller runs the scripts, talks to the port and sleeps between ticks.

use vstd::prelude::*;
use crate::manager::{Update, BUTTON_COUNT, LED_BLUE, LED_GREEN, LED_RED};
use crate::positions::{lemma_positions_ascend, lemma_positions_exact, positions_below};
use crate::rules::{AutoScriptRules, ExecuteScriptRules, Rules};
use crate::schedule::{Channel, NextExecution};
use crate::text::{is_printable, keep_printable};

verus! {

/// The caller sleeps this many milliseconds between two ticks.
pub const TICK_MILLIS: u64 = 400;

/// The order in which a tick visits the periodic channels.
pub open spec fn channel_order() -> Seq<Channel> {
    seq![Channel::RedLed, Channel::BlueLed, Channel::GreenLed, Channel::Display]
}

/// The logical index of the LED that `channel` drives; the display drives none.
pub open spec fn led_index(channel: Channel) -> Option<usize> {
    match channel {
        Channel::RedLed => Some(LED_RED),
        Channel::BlueLed => Some(LED_BLUE),
        Channel::GreenLed => Some(LED_GREEN),
        Channel::Display => None,
    }
}

/// The script configured for the button numbered `index`, if any.
pub open spec fn button_rule(rules: Rules, index: int) -> Option<ExecuteScriptRules> {
    if index == 0 {
        rules.button0
    } else if index == 1 {
        rules.button1
    } else if index == 2 {
        rules.button2
    } else if index == 3 {
        rules.button3
    } else {
        None
    }
}

/// When a button that is held down starts its script.
#[derive(Debug, Clone, Copy, PartialEq, Eq)]
pub enum Trigger {
    /// In every tick that finds the button held down: a button held across
    /// several ticks starts its script in each of them.
    WhileHeld,
    /// Only in a tick that finds the button held down after the tick before
    /// found it up.
    OnPress,
}

/// The button numbered `index` starts its script: it is held down now, it has
/// a script, and under [`Trigger::OnPress`] it was up at the tick before.
pub open spec fn fires(
    rules: Rules,
    trigger: Trigger,
    previous: Seq<bool>,
    state: Seq<bool>,
    index: int,
) -> bool {
    &&& 0 <= index < state.len()
    &&& state[index]
    &&& button_rule(rules, index) is Some
    &&& trigger is OnPress ==> 0 <= index < previous.len() && !previous[index]
}

/// The condition "the button with this number starts its script".
pub open spec fn fires_in(
    rules: Rules,
    trigger: Trigger,
    previous: Seq<bool>,
    state: Seq<bool>,
) -> spec_fn(int) -> bool {
    |index: int| fires(rules, trigger, previous, state, index)
}

/// The numbers of the buttons that start their scripts, ascending.
pub open spec fn firing(
    rules: Rules,
    trigger: Trigger,
    previous: Seq<bool>,
    state: Seq<bool>,
) -> Seq<usize> {
    positions_below(BUTTON_COUNT as nat, fires_in(rules, trigger, previous, state))
}

impl Rules {
    /// The script configured for `channel`, if any.
    pub open spec fn auto_rule(&self, channel: Channel) -> Option<AutoScriptRules> {
        match channel {
            Channel::RedLed => self.led_red,
            Channel::BlueLed => self.led_blue,
            Channel::GreenLed => self.led_green,
            Channel::Display => self.display,
        }
    }
}

/// The periodic channels in the order in which a tick visits them: the red,
/// the blue and the green LED, then the display.
pub fn tick_order() -> (order: [Channel; 4])
    ensures
        order@ == channel_order(),
{
    let order = [Channel::RedLed, Channel::BlueLed, Channel::GreenLed, Channel::Display];
    assert(order@ =~= channel_order());
    order
}

/// The script configured for `channel`, if any.
pub fn rule_for(rules: &Rules, channel: Channel) -> (rule: Option<&AutoScriptRules>)
    ensures
        match rule {
            Some(rule) => rules.auto_rule(channel) == Some(*rule),
            None => rules.auto_rule(channel) is None,
        },
{
    match channel {
        Channel::RedLed => rules.led_red.as_ref(),
        Channel::BlueLed => rules.led_blue.as_ref(),
        Channel::GreenLed => rules.led_green.as_ref(),
        Channel::Display => rules.display.as_ref(),
    }
}

/// The script that `channel` runs in a tick at `now`: the one configured for
/// it, if the channel is due. A channel without a script, or one that is
/// cooling down, runs nothing.
pub fn due_rule<'a>(
    rules: &'a Rules,
    next: &NextExecution,
    channel: Channel,
    now: u128,
) -> (rule: Option<&'a AutoScriptRules>)
    ensures
        rule is Some <==> rules.auto_rule(channel) is Some && next.is_due(channel, now),
        rule matches Some(rule) ==> rules.auto_rule(channel) == Some(*rule),
{
    if next.is_ready_at(channel, now) {
        rule_for(rules, channel)
    } else {
        None
    }
}

/// What an LED channel's script puts on the panel: the LED is on exactly if
/// the script succeeded. The display's channel drives no LED.
pub fn led_update(channel: Channel, succeeded: bool) -> (update: Option<Update>)
    ensures
        match led_index(channel) {
            Some(index) => update == Some(Update::LED(index, succeeded)),
            None => update is None,
        },
        update matches Some(u) ==> u.is_valid(),
{
    match channel {
        Channel::RedLed => Some(Update::LED(LED_RED, succeeded)),
        Channel::BlueLed => Some(Update::LED(LED_BLUE, succeeded)),
        Channel::GreenLed => Some(Update::LED(LED_GREEN, succeeded)),
        Channel::Display => None,
    }
}

/// What the display's script puts on the panel: the characters of its output
/// that the display can show, all others dropped.
pub fn display_update(output: &str) -> (update: Update)
    ensures
        update matches Update::Text(text) && text@ == output@.filter(|c: char| is_printable(c)),
{
    Update::Text(keep_printable(output))
}

/// The script configured for the button numbered `index`, if any.
pub fn rule_for_button(rules: &Rules, index: usize) -> (rule: Option<&ExecuteScriptRules>)
    ensures
        match rule {
            Some(rule) => button_rule(*rules, index as int) == Some(*rule),
            None => button_rule(*rules, index as int) is None,
        },
{
    if index == 0 {
        rules.button0.as_ref()
    } else if index == 1 {
        rules.button1.as_ref()
    } else if index == 2 {
        rules.button2.as_ref()
    } else if index == 3 {
        rules.button3.as_ref()
    } else {
        None
    }
}

/// The numbers of the buttons whose scripts start in this tick, ascending.
/// `state` is what the buttons are now, `previous` what they were at the tick
/// before; `trigger` says whether a button that stays held down starts its
/// script again.
pub fn buttons_to_fire(
    rules: &Rules,
    trigger: Trigger,
    previous: &[bool; 4],
    state: &[bool; 4],
) -> (numbers: Vec<usize>)
    ensures
        numbers@ == firing(*rules, trigger, previous@, state@),
{
    let mut numbers: Vec<usize> = Vec::new();
    let mut index: usize = 0;
    while index < BUTTON_COUNT
        invariant
            index <= 4,
            numbers@ == positions_below(
                index as nat,
                fires_in(*rules, trigger, previous@, state@),
            ),
        decreases 4 - index,
    {
        let newly = match trigger {
            Trigger::WhileHeld => true,
            Trigger::OnPress => !previous[index],
        };
        if state[index] && newly && rule_for_button(rules, index).is_some() {
            numbers.push(index);
        }
        index += 1;
    }
    numbers
}

/// A button is listed exactly if it is one of the four and starts its
/// script; no button is listed twice.
pub proof fn lemma_firing_exact(
    rules: Rules,
    trigger: Trigger,
    previous: Seq<bool>,
    state: Seq<bool>,
    index: usize,
)
    requires
        previous.len() == BUTTON_COUNT,
        state.len() == BUTTON_COUNT,
    ensures
        firing(rules, trigger, previous, state).contains(index) <==> fires(
            rules,
            trigger,
            previous,
            state,
            index as int,
        ),
        forall|j: int, k: int|
            0 <= j < k < firing(rules, trigger, previous, state).len() ==> firing(
                rules,
                trigger,
                previous,
                state,
            )[j] < firing(rules, trigger, previous, state)[k],
{
    let marked = fires_in(rules, trigger, previous, state);
    lemma_positions_exact(BUTTON_COUNT as nat, marked, index);
    assert forall|j: int, k: int|
        0 <= j < k < firing(rules, trigger, previous, state).len() implies firing(
        rules,
        trigger,
        previous,
        state,
    )[j] < firing(rules, trigger, previous, state)[k] by {
        lemma_positions_ascend(BUTTON_COUNT as nat, marked, j, k);
    }
}

/// While held, a button that is down and has a script starts it in every
/// tick, whatever it was before.
pub proof fn lemma_held_button_fires_every_tick(
    rules: Rules,
    previous: Seq<bool>,
    state: Seq<bool>,
    index: int,
)
    requires
        0 <= index < state.len(),
        state[index],
        button_rule(rules, index) is Some,
    ensures
        fires(rules, Trigger::WhileHeld, previous, state, index),
{
}

/// On press, a button that stays down starts its script once: not again in
/// the tick that finds it as the tick before left it.
pub proof fn lemma_pressed_button_fires_once(rules: Rules, state: Seq<bool>, index: int)
    ensures
        !fires(rules, Trigger::OnPress, state, state, index),
{
}

} // verus!
