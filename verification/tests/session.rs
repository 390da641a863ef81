use pomobar_rs::session::{
    Pomobar, LONG_BREAK_SECONDS, POMODOROS_PER_CYCLE, SHORT_BREAK_SECONDS, WORK_SECONDS,
};
use pomobar_rs::State;

#[test]
fn test_default() {
    let pomobar = Pomobar::default();
    assert_eq!(pomobar.state, State::Idle);
    assert_eq!(pomobar.last_state, State::Idle);
    assert_eq!(pomobar.pomodoro_count, 0);
    assert_eq!(pomobar.remaining_time, 25 * 60);
}

#[test]
fn test_toggle() {
    let mut pomobar = Pomobar::default();
    pomobar = pomobar.toggle();
    assert_eq!(pomobar.state, State::Work);

    pomobar = pomobar.toggle();
    assert_eq!(pomobar.state, State::Paused);

    pomobar = pomobar.toggle();
    assert_eq!(pomobar.state, State::Work);
}

#[test]
fn test_work_flow() {
    let mut pomobar = Pomobar::default();
    pomobar = pomobar.toggle();

    for i in 0..3 {
        pomobar.remaining_time = 0;
        pomobar = pomobar.status();
        assert_eq!(pomobar.pomodoro_count, i + 1);
        assert_eq!(pomobar.state, State::ShortBreak);

        pomobar.remaining_time = 0;
        pomobar = pomobar.status();
        assert_eq!(pomobar.pomodoro_count, i + 1);
        assert_eq!(pomobar.state, State::Work);
    }

    pomobar.remaining_time = 0;
    pomobar = pomobar.status();
    assert_eq!(pomobar.pomodoro_count, 4);
    assert_eq!(pomobar.state, State::LongBreak);

    pomobar.remaining_time = 0;
    pomobar = pomobar.status();
    assert_eq!(pomobar.pomodoro_count, 0);
    assert_eq!(pomobar.state, State::Work);
}

#[test]
fn test_count_down() {
    let mut pomobar = Pomobar::default();
    let initial_time = pomobar.remaining_time;
    pomobar = pomobar.count_down();
    assert_eq!(pomobar.remaining_time, initial_time - 1);
}

#[test]
fn test_reset() {
    let mut pomobar = Pomobar::default();
    pomobar.state = State::Work;
    pomobar.pomodoro_count = 2;
    pomobar = pomobar.reset();
    assert_eq!(pomobar.state, State::Idle);
    assert_eq!(pomobar.pomodoro_count, 0);
}

fn session(state: State, last_state: State, pomodoro_count: usize, remaining_time: i64) -> Pomobar {
    Pomobar { id: String::from("fixed"), state, last_state, pomodoro_count, remaining_time }
}

#[test]
fn durations_are_the_classic_schedule() {
    assert_eq!(WORK_SECONDS, 1500);
    assert_eq!(SHORT_BREAK_SECONDS, 300);
    assert_eq!(LONG_BREAK_SECONDS, 900);
    assert_eq!(POMODOROS_PER_CYCLE, 4);
}

#[test]
fn with_id_is_fresh_under_that_id() {
    let pomobar = Pomobar::with_id(String::from("abc"));
    let expected = Pomobar {
        id: String::from("abc"),
        state: State::Idle,
        last_state: State::Idle,
        pomodoro_count: 0,
        remaining_time: 1500,
    };
    assert_eq!(pomobar, expected);
}

#[test]
fn default_draws_a_random_uuid() {
    let pomobar = Pomobar::default();
    assert_eq!(pomobar.id.len(), 36);
    let parsed = uuid::Uuid::parse_str(&pomobar.id).unwrap();
    assert_eq!(parsed.get_version_num(), 4);
    assert_eq!(parsed.to_string(), pomobar.id);
    for (i, c) in pomobar.id.chars().enumerate() {
        if i == 8 || i == 13 || i == 18 || i == 23 {
            assert_eq!(c, '-');
        } else {
            assert!(c.is_ascii_digit() || ('a'..='f').contains(&c));
        }
    }
    assert_eq!(pomobar.id.chars().nth(14), Some('4'));
    assert!(matches!(pomobar.id.chars().nth(19), Some('8') | Some('9') | Some('a') | Some('b')));
}

#[test]
fn two_defaults_have_distinct_ids() {
    let first = Pomobar::default();
    let second = Pomobar::default();
    assert_ne!(first.id, second.id);
}

#[test]
fn clone_is_equal() {
    let pomobar = session(State::ShortBreak, State::Work, 2, 17);
    assert_eq!(pomobar.clone(), pomobar);
}

#[test]
fn timeout_at_zero_and_below() {
    assert!(session(State::Work, State::Idle, 0, 0).timeout());
    assert!(session(State::Work, State::Idle, 0, -1).timeout());
    assert!(session(State::Work, State::Idle, 0, i64::MIN).timeout());
    assert!(!session(State::Work, State::Idle, 0, 1).timeout());
}

#[test]
fn count_down_touches_only_the_clock() {
    let mut pomobar = session(State::Paused, State::LongBreak, 4, -5);
    let snapshot = pomobar.count_down();
    assert_eq!(snapshot, session(State::Paused, State::LongBreak, 4, -6));
    assert_eq!(pomobar, snapshot);
}

#[test]
fn status_freezes_idle_and_paused() {
    let mut idle = session(State::Idle, State::Idle, 0, 0);
    assert_eq!(idle.status(), session(State::Idle, State::Idle, 0, 0));
    let mut paused = session(State::Paused, State::Work, 3, -7);
    assert_eq!(paused.status(), session(State::Paused, State::Work, 3, -7));
    assert_eq!(paused, session(State::Paused, State::Work, 3, -7));
}

#[test]
fn status_counts_down_timed_phases() {
    let mut work = session(State::Work, State::Idle, 0, 1500);
    assert_eq!(work.status(), session(State::Work, State::Idle, 0, 1499));
    let mut short = session(State::ShortBreak, State::Work, 1, 1);
    assert_eq!(short.status(), session(State::ShortBreak, State::Work, 1, 0));
    let mut long = session(State::LongBreak, State::Work, 4, 900);
    assert_eq!(long.status(), session(State::LongBreak, State::Work, 4, 899));
    assert_eq!(long, session(State::LongBreak, State::Work, 4, 899));
}

#[test]
fn status_on_expired_work_takes_short_break() {
    let mut work = session(State::Work, State::Paused, 1, 0);
    let snapshot = work.status();
    assert_eq!(snapshot, session(State::ShortBreak, State::Work, 2, 300));
    assert_eq!(work, snapshot);
}

#[test]
fn status_on_expired_work_below_zero_takes_break() {
    let mut work = session(State::Work, State::Idle, 0, -3);
    assert_eq!(work.status(), session(State::ShortBreak, State::Work, 1, 300));
}

#[test]
fn status_on_fourth_expired_work_takes_long_break() {
    let mut work = session(State::Work, State::ShortBreak, 3, 0);
    assert_eq!(work.status(), session(State::LongBreak, State::Work, 4, 900));
}

#[test]
fn status_on_expired_short_break_starts_work() {
    let mut short = session(State::ShortBreak, State::Work, 2, 0);
    assert_eq!(short.status(), session(State::Work, State::ShortBreak, 2, 1500));
}

#[test]
fn status_on_expired_long_break_clears_count() {
    let mut long = session(State::LongBreak, State::Paused, 4, 0);
    assert_eq!(long.status(), session(State::Work, State::LongBreak, 0, 1500));
}

#[test]
fn tick_either_counts_down_or_changes_phase() {
    let phases = [State::Work, State::ShortBreak, State::LongBreak];
    for phase in phases {
        for remaining in [-2i64, -1, 0, 1, 2, 300] {
            let count = if phase == State::LongBreak { 4 } else { 1 };
            let mut pomobar = session(phase, State::Paused, count, remaining);
            let snapshot = pomobar.status();
            if remaining > 0 {
                assert_eq!(snapshot.state, phase);
                assert_eq!(snapshot.remaining_time, remaining - 1);
            } else {
                assert_ne!(snapshot.state, phase);
            }
            assert_eq!(snapshot.id, "fixed");
        }
    }
}

#[test]
fn toggle_from_idle_starts_work() {
    let mut idle = session(State::Idle, State::Idle, 0, 1500);
    let snapshot = idle.toggle();
    assert_eq!(snapshot, session(State::Work, State::Idle, 0, 1500));
    assert_eq!(idle, snapshot);
}

#[test]
fn toggle_pauses_each_timed_phase() {
    for (phase, count) in [(State::Work, 1), (State::ShortBreak, 1), (State::LongBreak, 4)] {
        let mut pomobar = session(phase, State::Idle, count, 42);
        assert_eq!(pomobar.toggle(), session(State::Paused, phase, count, 42));
    }
}

#[test]
fn toggle_resumes_the_saved_phase() {
    for (phase, count) in [(State::Work, 1), (State::ShortBreak, 1), (State::LongBreak, 4)] {
        let mut pomobar = session(State::Paused, phase, count, 42);
        assert_eq!(pomobar.toggle(), session(phase, State::Paused, count, 42));
    }
}

#[test]
fn pause_and_resume_keep_clock_and_count() {
    let mut pomobar = session(State::LongBreak, State::Work, 4, 123);
    pomobar.toggle();
    let resumed = pomobar.toggle();
    assert_eq!(resumed, session(State::LongBreak, State::Paused, 4, 123));
    pomobar.remaining_time = 0;
    assert_eq!(pomobar.status(), session(State::Work, State::LongBreak, 0, 1500));
}

#[test]
fn many_toggles_alternate() {
    let mut pomobar = Pomobar::with_id(String::from("t"));
    for n in 1..=25 {
        let snapshot = pomobar.toggle();
        if n % 2 == 1 {
            assert_eq!(snapshot.state, State::Work);
        } else {
            assert_eq!(snapshot.state, State::Paused);
            assert_eq!(snapshot.last_state, State::Work);
        }
        assert_eq!(snapshot.pomodoro_count, 0);
        assert_eq!(snapshot.remaining_time, 1500);
        assert_eq!(snapshot.id, "t");
    }
}

#[test]
fn work_saves_phase_and_refills_clock() {
    let mut short = session(State::ShortBreak, State::Work, 3, -1);
    assert_eq!(short.work(), session(State::Work, State::ShortBreak, 3, 1500));
    let mut long = session(State::LongBreak, State::Work, 4, 7);
    assert_eq!(long.work(), session(State::Work, State::LongBreak, 0, 1500));
    assert_eq!(long, session(State::Work, State::LongBreak, 0, 1500));
}

#[test]
fn take_break_by_count() {
    for count in 0..4 {
        let mut work = session(State::Work, State::Idle, count, 0);
        assert_eq!(work.take_break(), session(State::ShortBreak, State::Work, count, 300));
    }
    let mut work = session(State::Work, State::Idle, 4, 0);
    assert_eq!(work.take_break(), session(State::LongBreak, State::Work, 4, 900));
}

#[test]
fn take_break_outside_work_changes_nothing() {
    for phase in [State::Idle, State::ShortBreak, State::LongBreak, State::Paused] {
        let mut pomobar = session(phase, State::Work, 2, 11);
        assert_eq!(pomobar.take_break(), session(phase, State::Work, 2, 11));
    }
}

#[test]
fn reset_from_any_phase_is_fresh() {
    for phase in [State::Idle, State::Work, State::ShortBreak, State::LongBreak, State::Paused] {
        let mut pomobar = session(phase, State::Work, 3, -9);
        let snapshot = pomobar.reset();
        assert_eq!(snapshot.state, State::Idle);
        assert_eq!(snapshot.last_state, State::Idle);
        assert_eq!(snapshot.pomodoro_count, 0);
        assert_eq!(snapshot.remaining_time, 25 * 60);
        assert_ne!(snapshot.id, "fixed");
        assert_eq!(snapshot.id.len(), 36);
        assert_eq!(pomobar, snapshot);
    }
}

#[test]
fn state_names_are_lowercase() {
    assert_eq!(State::Idle.to_string(), "idle");
    assert_eq!(State::Work.to_string(), "work");
    assert_eq!(State::ShortBreak.to_string(), "short_break");
    assert_eq!(State::LongBreak.to_string(), "long_break");
    assert_eq!(State::Paused.to_string(), "paused");
}

#[test]
fn state_names_read_back() {
    for state in [State::Idle, State::Work, State::ShortBreak, State::LongBreak, State::Paused] {
        assert_eq!(State::from_name(&state.to_string()), Some(state));
    }
}

#[test]
fn only_the_five_names_are_phases() {
    for name in ["", "Idle", "IDLE", "idle ", " work", "shortbreak", "short-break", "long", "pause"] {
        assert_eq!(State::from_name(name), None);
    }
    assert_eq!(State::from_name("short_break"), Some(State::ShortBreak));
    assert_eq!(State::from_name("long_break"), Some(State::LongBreak));
    assert_eq!(State::from_name("paused"), Some(State::Paused));
}
