//! The pattern blinker: mode selection from button snapshots and the timed
//! pulse-group patterns.

use mqtt_pico::blink::{
    blink_step, cycle_actions, mode_for_buttons, next_interval, BlinkAction, BlinkInterval,
};

use BlinkAction::{SetStatus, Sleep};

#[test]
fn error_three_pattern_is_exact() {
    let acts = cycle_actions(&BlinkInterval::Error(3));
    assert_eq!(
        acts,
        vec![
            SetStatus(true),
            Sleep(100),
            SetStatus(false),
            Sleep(100),
            SetStatus(true),
            Sleep(100),
            SetStatus(false),
            Sleep(100),
            SetStatus(true),
            Sleep(100),
            SetStatus(false),
            Sleep(100),
            Sleep(200),
        ]
    );
}

#[test]
fn normal_pattern_is_exact() {
    let acts = cycle_actions(&BlinkInterval::Normal);
    assert_eq!(
        acts,
        vec![SetStatus(true), Sleep(500), SetStatus(false), Sleep(500)]
    );
}

#[test]
fn waiting_pattern_is_exact() {
    let acts = cycle_actions(&BlinkInterval::Waiting);
    assert_eq!(
        acts,
        vec![SetStatus(true), Sleep(250), SetStatus(false), Sleep(250)]
    );
}

#[test]
fn error_group_size_follows_severity() {
    let acts = cycle_actions(&BlinkInterval::Error(5));
    // Five pulses of four actions each, then the separator sleep.
    assert_eq!(acts.len(), 21);
    assert_eq!(acts[20], Sleep(200));
    let interval = BlinkInterval::Error(5);
    assert_eq!(interval.group_size(), 5);
    assert_eq!(interval.on_time(), 100);
    assert_eq!(interval.off_time(), 100);
    assert_eq!(interval.group_separator(), Some(200));
}

#[test]
fn exactly_one_pressed_button_selects_a_mode() {
    assert_eq!(
        mode_for_buttons(true, false, false, false),
        Some(BlinkInterval::Normal)
    );
    assert_eq!(
        mode_for_buttons(false, true, false, false),
        Some(BlinkInterval::Waiting)
    );
    assert_eq!(
        mode_for_buttons(false, false, true, false),
        Some(BlinkInterval::Error(3))
    );
    assert_eq!(
        mode_for_buttons(false, false, false, true),
        Some(BlinkInterval::Error(5))
    );
}

#[test]
fn other_button_combinations_select_nothing() {
    for mask in 0u8..16 {
        let b1 = mask & 1 != 0;
        let b2 = mask & 2 != 0;
        let b3 = mask & 4 != 0;
        let b4 = mask & 8 != 0;
        let pressed = [b1, b2, b3, b4].iter().filter(|&&b| b).count();
        let mode = mode_for_buttons(b1, b2, b3, b4);
        if pressed == 1 {
            assert!(mode.is_some(), "mask {mask}");
        } else {
            assert_eq!(mode, None, "mask {mask}");
        }
    }
}

#[test]
fn pending_mode_takes_effect_at_group_start() {
    // A pending mode change is picked up before the group is rendered...
    let (mode, acts) = blink_step(BlinkInterval::Normal, Some(BlinkInterval::Error(3)));
    assert_eq!(mode, BlinkInterval::Error(3));
    assert_eq!(acts, cycle_actions(&BlinkInterval::Error(3)));
    // ...and with nothing pending the current mode keeps repeating.
    let (mode, acts) = blink_step(mode, None);
    assert_eq!(mode, BlinkInterval::Error(3));
    assert_eq!(acts, cycle_actions(&BlinkInterval::Error(3)));
}

#[test]
fn next_interval_keeps_current_without_pending() {
    assert_eq!(
        next_interval(BlinkInterval::Waiting, None),
        BlinkInterval::Waiting
    );
    assert_eq!(
        next_interval(BlinkInterval::Waiting, Some(BlinkInterval::Normal)),
        BlinkInterval::Normal
    );
}
