use button_board::config::{
    make_button_rules, make_script_rules, one, validate_button, validate_display, validate_led,
    validate_script, Button, Config, FreqUnit, Leds, Output, Probes, Script, ScriptProbe,
};
use button_board::rules::{AutoScriptRules, ExecuteScriptRules, Frequency, Rules, Unit};
use button_board::text::decimal;

const GOOD: ScriptProbe = ScriptProbe { exists: true, is_file: true, is_executable: true };
const MISSING: ScriptProbe = ScriptProbe { exists: false, is_file: false, is_executable: false };
const DIRECTORY: ScriptProbe = ScriptProbe { exists: true, is_file: false, is_executable: true };
const PLAIN: ScriptProbe = ScriptProbe { exists: true, is_file: true, is_executable: false };

fn all(probe: ScriptProbe) -> Probes {
    Probes {
        led_green: probe,
        led_blue: probe,
        led_red: probe,
        display: probe,
        button0: probe,
        button1: probe,
        button2: probe,
        button3: probe,
    }
}

fn script(path: &str, amount: usize, unit: FreqUnit) -> Script {
    Script { script: path.to_string(), args: None, freq_amount: amount, freq_unit: unit }
}

fn button(path: &str) -> Button {
    Button { script: path.to_string(), args: None }
}

fn empty() -> Config {
    Config { output: Output::All, leds: None, display: None, buttons: None }
}

#[test]
fn defaults() {
    assert_eq!(FreqUnit::default(), FreqUnit::Minutes);
    assert_eq!(Output::default(), Output::All);
    assert_eq!(one(), 1);
    assert_eq!(Unit::from(FreqUnit::Seconds), Unit::Seconds);
    assert_eq!(Unit::from(FreqUnit::Minutes), Unit::Minutes);
}

#[test]
fn empty_configuration_gives_empty_rules() {
    let rules = empty().build_rules(&all(MISSING));
    assert_eq!(rules, Ok(Rules::new(None, None, None, None, None, None, None, None)));
}

#[test]
fn full_configuration_gives_full_rules() {
    let config = Config {
        output: Output::Debug,
        leds: Some(Leds {
            green: Some(script("/g", 1, FreqUnit::Seconds)),
            blue: Some(script("/b", 59, FreqUnit::Minutes)),
            red: Some(Script {
                script: "/r".to_string(),
                args: Some(vec!["-a".to_string(), "x y".to_string()]),
                freq_amount: 2,
                freq_unit: FreqUnit::Minutes,
            }),
        }),
        display: Some(script("/d", 30, FreqUnit::Seconds)),
        buttons: Some(vec![
            button("/0"),
            Button { script: "/1".to_string(), args: Some(vec!["go".to_string()]) },
            button("/2"),
            button("/3"),
        ]),
    };
    let rules = config.build_rules(&all(GOOD)).unwrap();
    assert_eq!(
        rules.led_green,
        Some(AutoScriptRules::new("/g".to_string(), vec![], Frequency::new(1, Unit::Seconds)))
    );
    assert_eq!(
        rules.led_blue,
        Some(AutoScriptRules::new("/b".to_string(), vec![], Frequency::new(59, Unit::Minutes)))
    );
    assert_eq!(
        rules.led_red,
        Some(AutoScriptRules::new(
            "/r".to_string(),
            vec!["-a".to_string(), "x y".to_string()],
            Frequency::new(2, Unit::Minutes)
        ))
    );
    assert_eq!(rules.led_red.unwrap().freq.to_seconds(), 120);
    assert_eq!(
        rules.display,
        Some(AutoScriptRules::new("/d".to_string(), vec![], Frequency::new(30, Unit::Seconds)))
    );
    assert_eq!(rules.button0, Some(ExecuteScriptRules::new("/0".to_string(), vec![])));
    assert_eq!(
        rules.button1,
        Some(ExecuteScriptRules::new("/1".to_string(), vec!["go".to_string()]))
    );
    assert_eq!(rules.button2, Some(ExecuteScriptRules::new("/2".to_string(), vec![])));
    assert_eq!(rules.button3, Some(ExecuteScriptRules::new("/3".to_string(), vec![])));
}

#[test]
fn fewer_buttons_leave_the_rest_without_rules() {
    let mut config = empty();
    config.buttons = Some(vec![button("/only")]);
    let rules = config.build_rules(&all(GOOD)).unwrap();
    assert_eq!(rules.button0, Some(ExecuteScriptRules::new("/only".to_string(), vec![])));
    assert_eq!(rules.button1, None);
    assert_eq!(rules.button2, None);
    assert_eq!(rules.button3, None);
}

#[test]
fn probes_of_absent_scripts_are_not_looked_at() {
    let mut config = empty();
    config.leds = Some(Leds { green: None, blue: Some(script("/b", 5, FreqUnit::Minutes)), red: None });
    let mut probes = all(MISSING);
    probes.led_blue = GOOD;
    assert!(config.build_rules(&probes).is_ok());
}

#[test]
fn all_problems_are_listed_in_order() {
    let config = Config {
        output: Output::Silent,
        leds: Some(Leds {
            green: Some(script("/g", 0, FreqUnit::Seconds)),
            blue: Some(script("/b", 60, FreqUnit::Minutes)),
            red: Some(script("/r", 59, FreqUnit::Minutes)),
        }),
        display: Some(script("/d", 1234, FreqUnit::Seconds)),
        buttons: Some(vec![button("/0"), button("/1"), button("/2"), button("/3"), button("/4")]),
    };
    let probes = Probes {
        led_green: MISSING,
        led_blue: GOOD,
        led_red: DIRECTORY,
        display: PLAIN,
        button0: GOOD,
        button1: MISSING,
        button2: DIRECTORY,
        button3: PLAIN,
    };
    let expected: Vec<String> = [
        "Green LED freq_amount is 0, min is 1",
        "Script for Green LED does not exist",
        "Blue LED freq_amount is 60, max is 59",
        "Script for Red LED is not a file",
        "Too many button scripts, max of 4 is supported",
        "Script for Button 1 does not exist",
        "Script for Button 2 is not a file",
        "Script for Button 3 is not executable",
        "Display freq_amount is 1234, max is 59",
        "Script for Display is not executable",
    ]
    .iter()
    .map(|line| line.to_string())
    .collect();
    assert_eq!(config.build_rules(&probes), Err(expected));
}

#[test]
fn too_many_buttons_alone_is_an_error() {
    let mut config = empty();
    config.buttons =
        Some(vec![button("/0"), button("/1"), button("/2"), button("/3"), button("/4")]);
    assert_eq!(
        config.build_rules(&all(GOOD)),
        Err(vec!["Too many button scripts, max of 4 is supported".to_string()])
    );
}

#[test]
fn missing_wins_over_not_a_file_and_not_executable() {
    let mut errors = Vec::new();
    validate_script("X", &ScriptProbe { exists: false, is_file: true, is_executable: true }, &mut errors);
    validate_script("Y", &ScriptProbe { exists: true, is_file: false, is_executable: false }, &mut errors);
    validate_script("Z", &GOOD, &mut errors);
    assert_eq!(errors, vec!["Script for X does not exist", "Script for Y is not a file"]);
}

#[test]
fn validators_append_to_what_is_there() {
    let mut errors = vec!["earlier".to_string()];
    validate_led("Red", &Some(script("/r", 0, FreqUnit::Minutes)), &PLAIN, &mut errors);
    validate_led("Blue", &None, &MISSING, &mut errors);
    validate_display(&Some(script("/d", 100, FreqUnit::Minutes)), &GOOD, &mut errors);
    validate_display(&None, &MISSING, &mut errors);
    let b = button("/b");
    validate_button("2", &Some(&b), &DIRECTORY, &mut errors);
    validate_button("3", &None, &MISSING, &mut errors);
    assert_eq!(
        errors,
        vec![
            "earlier",
            "Red LED freq_amount is 0, min is 1",
            "Script for Red LED is not executable",
            "Display freq_amount is 100, max is 59",
            "Script for Button 2 is not a file",
        ]
    );
}

#[test]
fn frequency_bounds_are_1_and_59() {
    for (amount, ok) in [(0, false), (1, true), (59, true), (60, false)] {
        let mut config = empty();
        config.display = Some(script("/d", amount, FreqUnit::Seconds));
        assert_eq!(config.build_rules(&all(GOOD)).is_ok(), ok);
    }
}

#[test]
fn rules_are_made_from_scripts() {
    assert_eq!(make_script_rules(&None), None);
    assert_eq!(make_button_rules(&None), None);
    let s = Script {
        script: "/s".to_string(),
        args: Some(vec!["1".to_string()]),
        freq_amount: 7,
        freq_unit: FreqUnit::Seconds,
    };
    assert_eq!(
        make_script_rules(&Some(&s)),
        Some(AutoScriptRules::new("/s".to_string(), vec!["1".to_string()], Frequency::new(7, Unit::Seconds)))
    );
    let b = Button { script: "/b".to_string(), args: Some(vec![]) };
    assert_eq!(make_button_rules(&Some(&b)), Some(ExecuteScriptRules::new("/b".to_string(), vec![])));
}

#[test]
fn decimal_numerals() {
    assert_eq!(decimal(0), "0");
    assert_eq!(decimal(7), "7");
    assert_eq!(decimal(10), "10");
    assert_eq!(decimal(60), "60");
    assert_eq!(decimal(1234567890), "1234567890");
    assert_eq!(decimal(usize::MAX), usize::MAX.to_string());
}
