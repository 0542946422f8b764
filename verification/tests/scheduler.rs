use wtimer::config::{Buff, Pomodoro, PomodoroSettings};
use wtimer::control::Control;
use wtimer::runtime::Runtime;

fn settings(work: u16, short: u16, long: u16, cycles: u8) -> PomodoroSettings {
    PomodoroSettings {
        work_duration: work,
        short_break_duration: short,
        long_break_duration: long,
        cycles_before_long_break: cycles,
    }
}

#[test]
fn three_cycle_cadence() {
    // work 25, short 5, long 15, a long break every third cycle
    let mut p = Pomodoro::from_settings(&settings(25, 5, 15, 3)).unwrap();
    let mut counters = Vec::new();
    let mut rests = Vec::new();
    for _ in 0..3 {
        let work = p.next_work_interval();
        assert_eq!(work.as_mins(), 25);
        counters.push(p.cycles_done());
        let rest = p.next_rest_interval();
        rests.push(rest.as_mins());
    }
    assert_eq!(counters, vec![1, 2, 3]);
    assert_eq!(rests, vec![5, 5, 15]);
    assert_eq!(p.cycles_done(), 0);
}

#[test]
fn cadence_of_one_is_every_cycle() {
    let mut p = Pomodoro::from_settings(&settings(10, 2, 20, 1)).unwrap();
    for _ in 0..3 {
        let _ = p.next_work_interval();
        assert_eq!(p.cycles_done(), 1);
        let rest = p.next_rest_interval();
        assert_eq!(rest.as_mins(), 20);
        assert_eq!(p.cycles_done(), 0);
    }
}

#[test]
fn default_configuration() {
    let mut p = Pomodoro::default();
    assert!(p.expects_work());
    assert_eq!(p.cycles_done(), 0);
    let work = p.next_work_interval();
    assert_eq!(work.as_mins(), 25);
    assert!(!p.expects_work());
    let rest = p.next_rest_interval();
    assert_eq!(rest.as_mins(), 5);
    assert!(p.expects_work());
}

#[test]
fn zero_settings_are_rejected() {
    assert!(Pomodoro::from_settings(&settings(0, 5, 15, 3)).is_none());
    assert!(Pomodoro::from_settings(&settings(25, 0, 15, 3)).is_none());
    assert!(Pomodoro::from_settings(&settings(25, 5, 0, 3)).is_none());
    assert!(Pomodoro::from_settings(&settings(25, 5, 15, 0)).is_none());
    assert!(Pomodoro::from_settings(&settings(25, 5, 15, 3)).is_some());
}

#[test]
fn load_substitutes_defaults() {
    // a rejected record and a missing one both yield the default configuration
    let mut bad = Control::load_pomodoro(Some(settings(25, 5, 15, 0)));
    let mut none = Control::load_pomodoro(None);
    let mut good = Control::load_pomodoro(Some(settings(50, 10, 30, 2)));
    assert_eq!(bad.next_work_interval().as_mins(), 25);
    assert_eq!(none.next_work_interval().as_mins(), 25);
    assert_eq!(good.next_work_interval().as_mins(), 50);
    assert_eq!(bad.next_rest_interval().as_mins(), 5);
    assert_eq!(none.next_rest_interval().as_mins(), 5);
    assert_eq!(good.next_rest_interval().as_mins(), 10);
}

#[test]
fn fresh_controller_has_defaults() {
    let mut c = Control::new();
    assert_eq!(c.history_len(), 0);
    assert!(c.expects_work());
    assert_eq!(c.cycles_done(), 0);
    assert_eq!(c.next_work_interval().as_mins(), 25);
}

#[test]
fn buffers_accumulate() {
    let mut b = Buff::new();
    b.add_work_interval(25);
    b.add_work_interval(30);
    b.add_rest_interval(5);
    let mut r = Runtime::new();
    r.add_work_interval(25);
    r.add_rest_interval(5);
    r.add_rest_interval(15);
}
