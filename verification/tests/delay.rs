use audiort::{Countdown, DelayStep, SETTLE_MILLIS, TICK_MILLIS};

fn steps_of(seconds: Option<u32>, quiet: bool) -> Vec<DelayStep> {
    let mut countdown = Countdown::new(seconds, quiet);
    let mut steps: Vec<DelayStep> = Vec::new();
    loop {
        let step = countdown.next_step();
        if step == DelayStep::Done {
            return steps;
        }
        steps.push(step);
    }
}

fn wait_of(seconds: Option<u32>) -> u64 {
    steps_of(seconds, false).iter().map(|s| s.pause_millis()).sum()
}

#[test]
fn no_delay_is_over_at_once() {
    let mut countdown = Countdown::new(None, false);
    assert!(countdown.is_over());
    assert_eq!(countdown.next_step(), DelayStep::Done);
    assert_eq!(countdown.next_step(), DelayStep::Done);
    assert_eq!(wait_of(None), 0);
}

#[test]
fn delay_of_no_seconds_is_over_at_once() {
    let mut countdown = Countdown::new(Some(0), false);
    assert!(countdown.is_over());
    assert_eq!(countdown.next_step(), DelayStep::Done);
    assert_eq!(steps_of(Some(0), true), vec![]);
    assert_eq!(wait_of(Some(0)), 0);
}

#[test]
fn delay_counts_down_once_a_second_and_then_settles() {
    assert_eq!(
        steps_of(Some(3), false),
        vec![
            DelayStep::Tick { count: 3, alert: true },
            DelayStep::Tick { count: 2, alert: true },
            DelayStep::Tick { count: 1, alert: true },
            DelayStep::Settle,
        ]
    );
}

#[test]
fn quiet_delay_sounds_no_cue() {
    assert_eq!(
        steps_of(Some(2), true),
        vec![
            DelayStep::Tick { count: 2, alert: false },
            DelayStep::Tick { count: 1, alert: false },
            DelayStep::Settle,
        ]
    );
}

#[test]
fn pauses_of_the_steps() {
    assert_eq!(TICK_MILLIS, 1000);
    assert_eq!(SETTLE_MILLIS, 500);
    assert_eq!(DelayStep::Tick { count: 7, alert: true }.pause_millis(), 1000);
    assert_eq!(DelayStep::Settle.pause_millis(), 500);
    assert_eq!(DelayStep::Done.pause_millis(), 0);
}

#[test]
fn delay_waits_a_second_for_each_count_and_half_a_second_more() {
    assert_eq!(wait_of(Some(1)), 1500);
    assert_eq!(wait_of(Some(3)), 3500);
    assert_eq!(wait_of(Some(60)), 60_500);
}

#[test]
fn countdown_is_over_only_after_the_last_pause() {
    let mut countdown = Countdown::new(Some(1), false);
    assert!(!countdown.is_over());
    assert_eq!(countdown.next_step(), DelayStep::Tick { count: 1, alert: true });
    assert!(!countdown.is_over());
    assert_eq!(countdown.next_step(), DelayStep::Settle);
    assert!(countdown.is_over());
    assert_eq!(countdown.next_step(), DelayStep::Done);
    assert_eq!(countdown.next_step(), DelayStep::Done);
}

#[test]
fn longest_delay_starts_at_its_count() {
    let mut countdown = Countdown::new(Some(u32::MAX), true);
    assert_eq!(countdown.next_step(), DelayStep::Tick { count: u32::MAX, alert: false });
    assert_eq!(countdown.next_step(), DelayStep::Tick { count: u32::MAX - 1, alert: false });
}
