//! The configuration as written by the user, and the rules built from it.
//!
//! Building the rules performs no I/O: the caller inspects each configured
//! script's file and hands in what it found as [`Probes`].

use vstd::prelude::*;
use vstd::string::StringExecFns;
use vstd::std_specs::convert::FromSpecImpl;
use crate::rules::{AutoScriptRules, ExecuteScriptRules, Frequency, Rules, Unit};
use crate::text::{decimal, decimal_text};

verus! {

/// How much the controller reports while it runs.
#[derive(Debug, Clone, Copy, PartialEq, Eq)]
pub enum Output {
    All,
    Debug,
    Silent,
}

/// The unit of a configured frequency.
#[derive(Debug, Clone, Copy, PartialEq, Eq)]
pub enum FreqUnit {
    Seconds,
    Minutes,
}

/// A script for a button.
#[derive(Debug, Clone, PartialEq, Eq)]
pub struct Button {
    pub script: String,
    pub args: Option<Vec<String>>,
}

/// A script for an LED or for the display, and how often it runs.
#[derive(Debug, Clone, PartialEq, Eq)]
pub struct Script {
    pub script: String,
    pub args: Option<Vec<String>>,
    pub freq_amount: usize,
    pub freq_unit: FreqUnit,
}

/// The scripts of the three LEDs.
#[derive(Debug, Clone, PartialEq, Eq)]
pub struct Leds {
    pub green: Option<Script>,
    pub blue: Option<Script>,
    pub red: Option<Script>,
}

/// The configuration file's content.
#[derive(Debug, Clone, PartialEq, Eq)]
pub struct Config {
    pub output: Output,
    pub leds: Option<Leds>,
    pub display: Option<Script>,
    pub buttons: Option<Vec<Button>>,
}

/// What the file system says of a script's path.
#[derive(Debug, Clone, Copy, PartialEq, Eq)]
pub struct ScriptProbe {
    /// Something exists at the path.
    pub exists: bool,
    /// It is a regular file.
    pub is_file: bool,
    /// It may be executed.
    pub is_executable: bool,
}

/// The probe of every script a configuration can name. A probe for a script
/// that the configuration leaves out is not looked at.
#[derive(Debug, Clone, Copy, PartialEq, Eq)]
pub struct Probes {
    pub led_green: ScriptProbe,
    pub led_blue: ScriptProbe,
    pub led_red: ScriptProbe,
    pub display: ScriptProbe,
    pub button0: ScriptProbe,
    pub button1: ScriptProbe,
    pub button2: ScriptProbe,
    pub button3: ScriptProbe,
}

impl Default for FreqUnit {
    fn default() -> (unit: Self)
        ensures
            unit == FreqUnit::Minutes,
    {
        FreqUnit::Minutes
    }
}

impl Default for Output {
    fn default() -> (output: Self)
        ensures
            output == Output::All,
    {
        Output::All
    }
}

/// The scheduling unit that a configured unit stands for.
pub open spec fn unit_of(unit: FreqUnit) -> Unit {
    match unit {
        FreqUnit::Seconds => Unit::Seconds,
        FreqUnit::Minutes => Unit::Minutes,
    }
}

impl From<FreqUnit> for Unit {
    fn from(unit: FreqUnit) -> (r: Unit) {
        match unit {
            FreqUnit::Seconds => Unit::Seconds,
            FreqUnit::Minutes => Unit::Minutes,
        }
    }
}

impl FromSpecImpl<FreqUnit> for Unit {
    open spec fn obeys_from_spec() -> bool {
        true
    }

    open spec fn from_spec(unit: FreqUnit) -> Unit {
        unit_of(unit)
    }
}

/// The frequency amount of a script whose configuration names none.
pub fn one() -> (amount: usize)
    ensures
        amount == 1,
{
    1
}

/// The text of each message in `messages`.
pub open spec fn texts(messages: Seq<String>) -> Seq<Seq<char>> {
    Seq::new(messages.len(), |i: int| messages[i]@)
}

/// The element of `items` at `index`, if there is one.
pub open spec fn nth<T>(items: Seq<T>, index: int) -> Option<T> {
    if 0 <= index < items.len() {
        Some(items[index])
    } else {
        None
    }
}

/// What is wrong with the file of the script called `name`: the first of
/// "does not exist", "is not a file" and "is not executable" that applies.
pub open spec fn script_problems(name: Seq<char>, probe: ScriptProbe) -> Seq<Seq<char>> {
    if !probe.exists {
        seq!["Script for "@ + name + " does not exist"@]
    } else if !probe.is_file {
        seq!["Script for "@ + name + " is not a file"@]
    } else if !probe.is_executable {
        seq!["Script for "@ + name + " is not executable"@]
    } else {
        Seq::empty()
    }
}

/// What is wrong with the frequency amount of the channel called `name`:
/// it must lie between 1 and 59.
pub open spec fn frequency_problems(name: Seq<char>, amount: usize) -> Seq<Seq<char>> {
    if amount == 0 {
        seq![name + " freq_amount is 0, min is 1"@]
    } else if amount > 59 {
        seq![name + " freq_amount is "@ + decimal_text(amount as nat) + ", max is 59"@]
    } else {
        Seq::empty()
    }
}

/// What is wrong with a script that runs periodically on the channel called
/// `name`: first its frequency, then its file.
pub open spec fn auto_problems(name: Seq<char>, script: Option<Script>, probe: ScriptProbe) -> Seq<
    Seq<char>,
> {
    match script {
        Some(script) => frequency_problems(name, script.freq_amount) + script_problems(name, probe),
        None => Seq::empty(),
    }
}

/// What is wrong with the script of the LED of the colour `name`.
pub open spec fn led_problems(name: Seq<char>, led: Option<Script>, probe: ScriptProbe) -> Seq<
    Seq<char>,
> {
    auto_problems(name + " LED"@, led, probe)
}

/// What is wrong with the display's script.
pub open spec fn display_problems(display: Option<Script>, probe: ScriptProbe) -> Seq<Seq<char>> {
    auto_problems("Display"@, display, probe)
}

/// What is wrong with the script of the button numbered `name`.
pub open spec fn button_problems(name: Seq<char>, button: Option<Button>, probe: ScriptProbe) -> Seq<
    Seq<char>,
> {
    match button {
        Some(_) => script_problems("Button "@ + name, probe),
        None => Seq::empty(),
    }
}

/// The arguments a script runs with: those configured, or none.
pub open spec fn args_of(args: Option<Vec<String>>) -> Seq<String> {
    match args {
        Some(args) => args@,
        None => Seq::empty(),
    }
}

/// `rules` is what `script` asks for: the same path and arguments, and the
/// frequency with the configured amount and unit.
pub open spec fn is_auto_rules_of(rules: Option<AutoScriptRules>, script: Option<Script>) -> bool {
    match script {
        Some(script) => {
            &&& rules matches Some(rules)
            &&& rules.script == script.script
            &&& rules.args@ == args_of(script.args)
            &&& rules.freq.amount() == script.freq_amount
            &&& rules.freq.unit() == unit_of(script.freq_unit)
        },
        None => rules is None,
    }
}

/// `rules` is what `button` asks for: the same path and arguments.
pub open spec fn is_button_rules_of(rules: Option<ExecuteScriptRules>, button: Option<Button>) -> bool {
    match button {
        Some(button) => {
            &&& rules matches Some(rules)
            &&& rules.script == button.script
            &&& rules.args@ == args_of(button.args)
        },
        None => rules is None,
    }
}

/// `a` followed by `b` followed by `c`.
fn join(a: &str, b: &str, c: &str) -> (s: String)
    ensures
        s@ == a@ + b@ + c@,
{
    let mut s = String::from_str(a);
    s.append(b);
    s.append(c);
    s
}

/// Appends `message` to `errors`.
fn report(errors: &mut Vec<String>, message: String)
    ensures
        texts(final(errors)@) == texts(old(errors)@).push(message@),
{
    errors.push(message);
    assert(texts(errors@) =~= texts(old(errors)@).push(message@));
}

/// A copy of the configured arguments, or no arguments.
fn copy_args(args: &Option<Vec<String>>) -> (copy: Vec<String>)
    ensures
        copy@ == args_of(*args),
{
    let mut copy: Vec<String> = Vec::new();
    match args {
        Some(args) => {
            let mut i: usize = 0;
            while i < args.len()
                invariant
                    i <= args.len(),
                    copy@ == args@.take(i as int),
                decreases args.len() - i,
            {
                copy.push(args[i].clone());
                assert(copy@ =~= args@.take(i + 1));
                i += 1;
            }
            assert(args@.take(i as int) =~= args@);
        },
        None => {},
    }
    copy
}

/// The rules for a periodically run script, if one is configured.
pub fn make_script_rules(script: &Option<&Script>) -> (rules: Option<AutoScriptRules>)
    ensures
        match *script {
            Some(script) => is_auto_rules_of(rules, Some(*script)),
            None => rules is None,
        },
{
    match script {
        Some(script) => Some(
            AutoScriptRules::new(
                script.script.clone(),
                copy_args(&script.args),
                Frequency::new(script.freq_amount, Unit::from(script.freq_unit)),
            ),
        ),
        None => None,
    }
}

/// The rules for a button's script, if one is configured.
pub fn make_button_rules(button: &Option<&Button>) -> (rules: Option<ExecuteScriptRules>)
    ensures
        match *button {
            Some(button) => is_button_rules_of(rules, Some(*button)),
            None => rules is None,
        },
{
    match button {
        Some(button) => Some(
            ExecuteScriptRules::new(button.script.clone(), copy_args(&button.args)),
        ),
        None => None,
    }
}

/// Appends to `errors` what is wrong with the file of the script called `name`.
pub fn validate_script(name: &str, probe: &ScriptProbe, errors: &mut Vec<String>)
    ensures
        texts(final(errors)@) == texts(old(errors)@) + script_problems(name@, *probe),
{
    if !probe.exists {
        report(errors, join("Script for ", name, " does not exist"));
    } else if !probe.is_file {
        report(errors, join("Script for ", name, " is not a file"));
    } else if !probe.is_executable {
        report(errors, join("Script for ", name, " is not executable"));
    }
    assert(texts(errors@) =~= texts(old(errors)@) + script_problems(name@, *probe));
}

/// Appends to `errors` what is wrong with the frequency amount of the
/// channel called `name`.
fn validate_frequency(name: &str, amount: usize, errors: &mut Vec<String>)
    ensures
        texts(final(errors)@) == texts(old(errors)@) + frequency_problems(name@, amount),
{
    if amount == 0 {
        report(errors, join(name, " freq_amount is 0, min is 1", ""));
        assert(name@ + " freq_amount is 0, min is 1"@ + ""@ =~= name@
            + " freq_amount is 0, min is 1"@) by {
            reveal_strlit("");
        }
    } else if amount > 59 {
        let mut message = join(name, " freq_amount is ", decimal(amount).as_str());
        message.append(", max is 59");
        report(errors, message);
    }
    assert(texts(errors@) =~= texts(old(errors)@) + frequency_problems(name@, amount));
}

/// Appends to `errors` what is wrong with a periodically run script.
fn validate_auto(name: &str, script: &Option<Script>, probe: &ScriptProbe, errors: &mut Vec<String>)
    ensures
        texts(final(errors)@) == texts(old(errors)@) + auto_problems(name@, *script, *probe),
{
    if let Some(script) = script {
        validate_frequency(name, script.freq_amount, errors);
        validate_script(name, probe, errors);
    }
    assert(texts(errors@) =~= texts(old(errors)@) + auto_problems(name@, *script, *probe));
}

/// Appends to `errors` what is wrong with the display's script.
pub fn validate_display(display: &Option<Script>, probe: &ScriptProbe, errors: &mut Vec<String>)
    ensures
        texts(final(errors)@) == texts(old(errors)@) + display_problems(*display, *probe),
{
    validate_auto("Display", display, probe, errors);
}

/// Appends to `errors` what is wrong with the script of the LED of the
/// colour `name`.
pub fn validate_led(name: &str, led: &Option<Script>, probe: &ScriptProbe, errors: &mut Vec<String>)
    ensures
        texts(final(errors)@) == texts(old(errors)@) + led_problems(name@, *led, *probe),
{
    let full = join(name, " LED", "");
    assert(full@ =~= name@ + " LED"@) by {
        reveal_strlit("");
    }
    validate_auto(full.as_str(), led, probe, errors);
}

/// Appends to `errors` what is wrong with the script of the button numbered
/// `name`.
pub fn validate_button(
    name: &str,
    button: &Option<&Button>,
    probe: &ScriptProbe,
    errors: &mut Vec<String>,
)
    ensures
        texts(final(errors)@) == texts(old(errors)@) + match *button {
            Some(button) => button_problems(name@, Some(*button), *probe),
            None => Seq::empty(),
        },
{
    if let Some(_) = button {
        let full = join("Button ", name, "");
        assert(full@ =~= "Button "@ + name@) by {
            reveal_strlit("");
        }
        validate_script(full.as_str(), probe, errors);
    }
    assert(texts(errors@) =~= texts(old(errors)@) + match *button {
        Some(button) => button_problems(name@, Some(*button), *probe),
        None => Seq::empty(),
    });
}

impl Config {
    /// The configured script of the green LED, if any.
    pub open spec fn led_green(&self) -> Option<Script> {
        match self.leds {
            Some(leds) => leds.green,
            None => None,
        }
    }

    /// The configured script of the blue LED, if any.
    pub open spec fn led_blue(&self) -> Option<Script> {
        match self.leds {
            Some(leds) => leds.blue,
            None => None,
        }
    }

    /// The configured script of the red LED, if any.
    pub open spec fn led_red(&self) -> Option<Script> {
        match self.leds {
            Some(leds) => leds.red,
            None => None,
        }
    }

    /// The configured script of the button numbered `index`, if any.
    pub open spec fn button(&self, index: int) -> Option<Button> {
        match self.buttons {
            Some(buttons) => nth(buttons@, index),
            None => None,
        }
    }

    /// More button scripts are configured than the panel has buttons.
    pub open spec fn has_too_many_buttons(&self) -> bool {
        self.buttons matches Some(buttons) && buttons@.len() > 4
    }

    /// What is wrong with the LEDs' scripts: green, then blue, then red.
    pub open spec fn all_led_problems(&self, probes: Probes) -> Seq<Seq<char>> {
        led_problems("Green"@, self.led_green(), probes.led_green) + led_problems(
            "Blue"@,
            self.led_blue(),
            probes.led_blue,
        ) + led_problems("Red"@, self.led_red(), probes.led_red)
    }

    /// What is wrong with the buttons' scripts: their number, then each of
    /// the first four.
    pub open spec fn all_button_problems(&self, probes: Probes) -> Seq<Seq<char>> {
        (if self.has_too_many_buttons() {
            seq!["Too many button scripts, max of 4 is supported"@]
        } else {
            Seq::empty()
        }) + button_problems("0"@, self.button(0), probes.button0) + button_problems(
            "1"@,
            self.button(1),
            probes.button1,
        ) + button_problems("2"@, self.button(2), probes.button2) + button_problems(
            "3"@,
            self.button(3),
            probes.button3,
        )
    }

    /// Everything that is wrong with the configuration, given what the file
    /// system says of its scripts: the LEDs, then the buttons, then the
    /// display.
    pub open spec fn problems(&self, probes: Probes) -> Seq<Seq<char>> {
        self.all_led_problems(probes) + self.all_button_problems(probes) + display_problems(
            self.display,
            probes.display,
        )
    }

    /// `rules` holds exactly what the configuration asks for, channel by channel.
    pub open spec fn yields(&self, rules: Rules) -> bool {
        &&& is_auto_rules_of(rules.led_green, self.led_green())
        &&& is_auto_rules_of(rules.led_blue, self.led_blue())
        &&& is_auto_rules_of(rules.led_red, self.led_red())
        &&& is_auto_rules_of(rules.display, self.display)
        &&& is_button_rules_of(rules.button0, self.button(0))
        &&& is_button_rules_of(rules.button1, self.button(1))
        &&& is_button_rules_of(rules.button2, self.button(2))
        &&& is_button_rules_of(rules.button3, self.button(3))
    }

    fn green_script(&self) -> (script: Option<&Script>)
        ensures
            match script {
                Some(script) => self.led_green() == Some(*script),
                None => self.led_green() is None,
            },
    {
        match &self.leds {
            Some(leds) => leds.green.as_ref(),
            None => None,
        }
    }

    fn blue_script(&self) -> (script: Option<&Script>)
        ensures
            match script {
                Some(script) => self.led_blue() == Some(*script),
                None => self.led_blue() is None,
            },
    {
        match &self.leds {
            Some(leds) => leds.blue.as_ref(),
            None => None,
        }
    }

    fn red_script(&self) -> (script: Option<&Script>)
        ensures
            match script {
                Some(script) => self.led_red() == Some(*script),
                None => self.led_red() is None,
            },
    {
        match &self.leds {
            Some(leds) => leds.red.as_ref(),
            None => None,
        }
    }

    fn button_script(&self, index: usize) -> (button: Option<&Button>)
        ensures
            match button {
                Some(button) => self.button(index as int) == Some(*button),
                None => self.button(index as int) is None,
            },
    {
        match &self.buttons {
            Some(buttons) => if index < buttons.len() {
                Some(&buttons[index])
            } else {
                None
            },
            None => None,
        }
    }

    /// Appends to `errors` what is wrong with the LEDs' scripts.
    fn validate_leds(&self, probes: &Probes, errors: &mut Vec<String>)
        ensures
            texts(final(errors)@) == texts(old(errors)@) + self.all_led_problems(*probes),
    {
        let ghost before = texts(errors@);
        if let Some(leds) = &self.leds {
            validate_led("Green", &leds.green, &probes.led_green, errors);
            let ghost green = led_problems("Green"@, self.led_green(), probes.led_green);
            assert(texts(errors@) == before + green);
            validate_led("Blue", &leds.blue, &probes.led_blue, errors);
            let ghost blue = led_problems("Blue"@, self.led_blue(), probes.led_blue);
            assert(texts(errors@) == before + green + blue);
            validate_led("Red", &leds.red, &probes.led_red, errors);
            let ghost red = led_problems("Red"@, self.led_red(), probes.led_red);
            assert(texts(errors@) == before + green + blue + red);
            assert(before + green + blue + red =~= before + (green + blue + red));
        } else {
            assert(self.all_led_problems(*probes) =~= Seq::empty());
            assert(texts(errors@) =~= before + self.all_led_problems(*probes));
        }
    }

    /// Appends to `errors` what is wrong with the buttons' scripts.
    fn validate_buttons(&self, probes: &Probes, errors: &mut Vec<String>)
        ensures
            texts(final(errors)@) == texts(old(errors)@) + self.all_button_problems(*probes),
    {
        let ghost before = texts(errors@);
        if let Some(buttons) = &self.buttons {
            if buttons.len() > 4 {
                report(errors, String::from_str("Too many button scripts, max of 4 is supported"));
            }
            let ghost many: Seq<Seq<char>> = if self.has_too_many_buttons() {
                seq!["Too many button scripts, max of 4 is supported"@]
            } else {
                Seq::empty()
            };
            assert(texts(errors@) =~= before + many);
            validate_button("0", &self.button_script(0), &probes.button0, errors);
            let ghost b0 = button_problems("0"@, self.button(0), probes.button0);
            assert(texts(errors@) == before + many + b0);
            validate_button("1", &self.button_script(1), &probes.button1, errors);
            let ghost b1 = button_problems("1"@, self.button(1), probes.button1);
            assert(texts(errors@) == before + many + b0 + b1);
            validate_button("2", &self.button_script(2), &probes.button2, errors);
            let ghost b2 = button_problems("2"@, self.button(2), probes.button2);
            assert(texts(errors@) == before + many + b0 + b1 + b2);
            validate_button("3", &self.button_script(3), &probes.button3, errors);
            let ghost b3 = button_problems("3"@, self.button(3), probes.button3);
            assert(texts(errors@) == before + many + b0 + b1 + b2 + b3);
            assert(before + many + b0 + b1 + b2 + b3 =~= before + (many + b0 + b1 + b2 + b3));
        } else {
            assert(self.all_button_problems(*probes) =~= Seq::empty());
            assert(texts(errors@) =~= before + self.all_button_problems(*probes));
        }
    }

    /// The rules the configuration asks for.
    fn make_rules(&self) -> (rules: Rules)
        ensures
            self.yields(rules),
    {
        Rules::new(
            make_script_rules(&self.green_script()),
            make_script_rules(&self.blue_script()),
            make_script_rules(&self.red_script()),
            make_script_rules(&self.display.as_ref()),
            make_button_rules(&self.button_script(0)),
            make_button_rules(&self.button_script(1)),
            make_button_rules(&self.button_script(2)),
            make_button_rules(&self.button_script(3)),
        )
    }

    /// Builds the rules the configuration asks for, or lists everything that
    /// is wrong with it. `probes` holds what the file system says of each
    /// configured script.
    pub fn build_rules(&self, probes: &Probes) -> (r: Result<Rules, Vec<String>>)
        ensures
            r is Ok <==> self.problems(*probes).len() == 0,
            r matches Ok(rules) ==> self.yields(rules),
            r matches Err(errors) ==> texts(errors@) == self.problems(*probes),
    {
        let mut errors: Vec<String> = Vec::new();
        assert(texts(errors@) =~= Seq::empty());
        self.validate_leds(probes, &mut errors);
        self.validate_buttons(probes, &mut errors);
        validate_display(&self.display, &probes.display, &mut errors);
        assert(texts(errors@) =~= self.problems(*probes));
        if errors.len() == 0 {
            Ok(self.make_rules())
        } else {
            Err(errors)
        }
    }
}

} // verus!
