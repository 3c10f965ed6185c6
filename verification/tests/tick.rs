use button_board::manager::{DeviceManager, PortEvent, Update};
use button_board::rules::{AutoScriptRules, ExecuteScriptRules, Frequency, Rules, Unit};
use button_board::schedule::{Channel, NextExecution};
use button_board::text::keep_printable;
use button_board::tick::{
    buttons_to_fire, display_update, due_rule, led_update, rule_for, rule_for_button,
    tick_order, Trigger, TICK_MILLIS,
};

fn auto(path: &str) -> AutoScriptRules {
    AutoScriptRules::new(path.to_string(), Vec::new(), Frequency::new(1, Unit::Minutes))
}

fn on_press(path: &str) -> ExecuteScriptRules {
    ExecuteScriptRules::new(path.to_string(), Vec::new())
}

fn rules() -> Rules {
    Rules::new(
        Some(auto("/green")),
        None,
        Some(auto("/red")),
        Some(auto("/display")),
        Some(on_press("/0")),
        None,
        Some(on_press("/2")),
        None,
    )
}

#[test]
fn tick_visits_red_blue_green_display() {
    assert_eq!(
        tick_order(),
        [Channel::RedLed, Channel::BlueLed, Channel::GreenLed, Channel::Display]
    );
    assert_eq!(TICK_MILLIS, 400);
}

#[test]
fn each_channel_has_its_own_rule() {
    let rules = rules();
    assert_eq!(rule_for(&rules, Channel::RedLed), Some(&auto("/red")));
    assert_eq!(rule_for(&rules, Channel::BlueLed), None);
    assert_eq!(rule_for(&rules, Channel::GreenLed), Some(&auto("/green")));
    assert_eq!(rule_for(&rules, Channel::Display), Some(&auto("/display")));
    assert_eq!(rule_for_button(&rules, 0), Some(&on_press("/0")));
    assert_eq!(rule_for_button(&rules, 1), None);
    assert_eq!(rule_for_button(&rules, 2), Some(&on_press("/2")));
    assert_eq!(rule_for_button(&rules, 3), None);
    assert_eq!(rule_for_button(&rules, 4), None);
}

#[test]
fn channel_runs_if_configured_and_due() {
    let rules = rules();
    let mut next = NextExecution::new();
    assert_eq!(due_rule(&rules, &next, Channel::RedLed, 5), Some(&auto("/red")));
    assert_eq!(due_rule(&rules, &next, Channel::BlueLed, 5), None);
    next.reset_at(Channel::RedLed, 5, 60);
    assert_eq!(due_rule(&rules, &next, Channel::RedLed, 6), None);
    assert_eq!(due_rule(&rules, &next, Channel::RedLed, 60_000_000_004), None);
    assert_eq!(due_rule(&rules, &next, Channel::RedLed, 60_000_000_005), Some(&auto("/red")));
    assert_eq!(due_rule(&rules, &next, Channel::Display, 6), Some(&auto("/display")));
}

#[test]
fn led_channels_show_whether_the_script_succeeded() {
    assert_eq!(led_update(Channel::RedLed, true), Some(Update::LED(2, true)));
    assert_eq!(led_update(Channel::RedLed, false), Some(Update::LED(2, false)));
    assert_eq!(led_update(Channel::BlueLed, true), Some(Update::LED(1, true)));
    assert_eq!(led_update(Channel::GreenLed, false), Some(Update::LED(0, false)));
    assert_eq!(led_update(Channel::Display, true), None);
}

#[test]
fn red_led_update_goes_out_with_code_1() {
    let update = led_update(Channel::RedLed, true).unwrap();
    assert_eq!(DeviceManager::new().send(update), Ok(vec![0x03, 1, 1]));
}

#[test]
fn display_keeps_only_what_it_can_show() {
    assert_eq!(display_update("load: 0.5\n"), Update::Text("load: 0.5".to_string()));
    assert_eq!(display_update("a\tb\r\nc\u{e9}d\u{7f}"), Update::Text("abcd".to_string()));
    assert_eq!(display_update(""), Update::Text(String::new()));
    assert_eq!(display_update("\n\n"), Update::Text(String::new()));
    assert_eq!(keep_printable(" ~\u{120}"), " ~");
}

#[test]
fn display_update_of_clean_output_is_valid() {
    assert_eq!(display_update("ok\n").validate(), Ok(()));
}

#[test]
fn display_output_is_not_shortened() {
    let long = "x".repeat(100);
    assert_eq!(display_update(&long), Update::Text(long.clone()));
}

const UP: [bool; 4] = [false, false, false, false];

#[test]
fn pressed_buttons_with_a_script_fire() {
    let rules = rules();
    let held = Trigger::WhileHeld;
    assert_eq!(buttons_to_fire(&rules, held, &UP, &UP), Vec::<usize>::new());
    assert_eq!(buttons_to_fire(&rules, held, &UP, &[true, true, true, true]), vec![0, 2]);
    assert_eq!(buttons_to_fire(&rules, held, &UP, &[false, true, false, true]), Vec::<usize>::new());
    assert_eq!(buttons_to_fire(&rules, held, &UP, &[false, false, true, false]), vec![2]);
}

#[test]
fn held_button_fires_in_every_tick() {
    let rules = rules();
    let mut manager = DeviceManager::new();
    let before = manager.get_button_state();
    manager.recv(PortEvent::Frame(0x01, 0));
    let down = manager.get_button_state();
    assert_eq!(buttons_to_fire(&rules, Trigger::WhileHeld, &before, &down), vec![0]);
    assert_eq!(buttons_to_fire(&rules, Trigger::WhileHeld, &down, &down), vec![0]);
    manager.recv(PortEvent::Frame(0x02, 0));
    let up = manager.get_button_state();
    assert_eq!(buttons_to_fire(&rules, Trigger::WhileHeld, &down, &up), Vec::<usize>::new());
}

#[test]
fn on_press_a_held_button_fires_once() {
    let rules = rules();
    let down = [true, false, true, false];
    assert_eq!(buttons_to_fire(&rules, Trigger::OnPress, &UP, &down), vec![0, 2]);
    assert_eq!(buttons_to_fire(&rules, Trigger::OnPress, &down, &down), Vec::<usize>::new());
    assert_eq!(
        buttons_to_fire(&rules, Trigger::OnPress, &[true, false, false, false], &down),
        vec![2]
    );
    assert_eq!(buttons_to_fire(&rules, Trigger::OnPress, &down, &UP), Vec::<usize>::new());
}
