use twenty_five_and_five::timer::{
    key_released, Key, Message, Phase, Pomodoro, PomodoroState, TimeState,
};

#[test]
fn default_session_is_work_at_full_idle() {
    let p = Pomodoro::default();
    assert_eq!(
        p,
        Pomodoro {
            mode: PomodoroState::WorkTwentyFive(1500),
            state: TimeState::Idle,
        }
    );
}

#[test]
fn tick_on_idle_is_a_noop() {
    let modes = vec![
        PomodoroState::WorkTwentyFive(1500),
        PomodoroState::BreakFive(42),
        PomodoroState::FifteenRelax(0),
    ];
    for mode in modes {
        let mut p = Pomodoro {
            mode,
            state: TimeState::Idle,
        };
        let notice = p.tick(7);
        assert!(notice.is_none());
        assert_eq!(p, Pomodoro { mode, state: TimeState::Idle });
    }
}

#[test]
fn tick_while_ticking_decrements_by_one() {
    let mut p = Pomodoro {
        mode: PomodoroState::FifteenRelax(900),
        state: TimeState::Ticking { last_tick: 3 },
    };
    let notice = p.tick(4);
    assert!(notice.is_none());
    assert_eq!(p.mode, PomodoroState::FifteenRelax(899));
    assert_eq!(p.state, TimeState::Ticking { last_tick: 4 });
}

#[test]
fn tick_at_zero_rolls_work_over_to_break() {
    let mut p = Pomodoro {
        mode: PomodoroState::WorkTwentyFive(0),
        state: TimeState::Ticking { last_tick: 10 },
    };
    let notice = p.tick(11).expect("rollover must emit a notice");
    assert_eq!(p.mode, PomodoroState::BreakFive(300));
    assert_eq!(p.state, TimeState::Idle);
    assert_eq!(notice.summary, "Break (00:05:00)");
    assert_eq!(notice.body, "Work Done 🫂");
    assert_eq!(notice.icon, "alarm-clock");
}

#[test]
fn tick_at_zero_rolls_relax_over_to_work() {
    let mut p = Pomodoro {
        mode: PomodoroState::FifteenRelax(0),
        state: TimeState::Ticking { last_tick: 0 },
    };
    let notice = p.tick(1).expect("rollover must emit a notice");
    assert_eq!(p.mode, PomodoroState::WorkTwentyFive(300));
    assert_eq!(p.state, TimeState::Idle);
    assert_eq!(notice.summary, "Work (00:05:00)");
    assert_eq!(notice.body, "Relaxation Done 🔫");
    assert_eq!(notice.icon, "alarm-clock");
}

#[test]
fn reset_from_any_state_yields_the_default() {
    let mut p = Pomodoro {
        mode: PomodoroState::BreakFive(17),
        state: TimeState::Ticking { last_tick: 99 },
    };
    p.reset();
    assert_eq!(p, Pomodoro::default());

    let mut q = Pomodoro {
        mode: PomodoroState::FifteenRelax(0),
        state: TimeState::Idle,
    };
    q.reset();
    assert_eq!(q, Pomodoro::default());
}

#[test]
fn select_mode_always_sets_the_full_duration() {
    let mut p = Pomodoro {
        mode: PomodoroState::WorkTwentyFive(3),
        state: TimeState::Ticking { last_tick: 5 },
    };
    p.select_mode(Phase::Break);
    assert_eq!(p.mode, PomodoroState::BreakFive(300));
    // A ticking session keeps ticking against the new phase.
    assert_eq!(p.state, TimeState::Ticking { last_tick: 5 });
    p.select_mode(Phase::Relax);
    assert_eq!(p.mode, PomodoroState::FifteenRelax(900));
    p.select_mode(Phase::Work);
    assert_eq!(p.mode, PomodoroState::WorkTwentyFive(1500));
    assert_eq!(p.state, TimeState::Ticking { last_tick: 5 });
}

#[test]
fn toggle_twice_restores_the_run_state() {
    let mut p = Pomodoro::default();
    p.toggle(8);
    assert_eq!(p.state, TimeState::Ticking { last_tick: 8 });
    assert_eq!(p.mode, PomodoroState::WorkTwentyFive(1500));
    p.toggle(9);
    assert_eq!(p, Pomodoro::default());

    let mut q = Pomodoro {
        mode: PomodoroState::BreakFive(12),
        state: TimeState::Ticking { last_tick: 1 },
    };
    q.toggle(2);
    assert_eq!(q.state, TimeState::Idle);
    q.toggle(3);
    assert_eq!(q.mode, PomodoroState::BreakFive(12));
    assert_eq!(q.state, TimeState::Ticking { last_tick: 3 });
}

#[test]
fn work_session_runs_down_and_rolls_into_break() {
    let mut p = Pomodoro::default();
    p.toggle(0);
    assert_eq!(
        p,
        Pomodoro {
            mode: PomodoroState::WorkTwentyFive(1500),
            state: TimeState::Ticking { last_tick: 0 },
        }
    );
    let mut notices: u64 = 0;
    let mut last_body = String::new();
    // 1500 ticks count the phase down to zero; the tick after that rolls over.
    for i in 0..1501u64 {
        if let Some(n) = p.tick(i + 1) {
            notices += 1;
            last_body = n.body;
        }
    }
    assert_eq!(notices, 1);
    assert!(last_body.contains("Work Done"));
    assert_eq!(
        p,
        Pomodoro {
            mode: PomodoroState::BreakFive(300),
            state: TimeState::Idle,
        }
    );
}

#[test]
fn break_at_zero_rolls_over_to_work_at_300_not_1500() {
    let mut p = Pomodoro {
        mode: PomodoroState::BreakFive(0),
        state: TimeState::Ticking { last_tick: 40 },
    };
    let notice = p.tick(41).expect("rollover must emit a notice");
    assert_eq!(
        p,
        Pomodoro {
            mode: PomodoroState::WorkTwentyFive(300),
            state: TimeState::Idle,
        }
    );
    assert_eq!(notice.body, "Break Done 🥖");
}

#[test]
fn update_dispatches_every_message() {
    let mut p = Pomodoro::default();
    assert!(p.update(Message::Toggle, 5).is_none());
    assert_eq!(p.state, TimeState::Ticking { last_tick: 5 });
    assert!(p.update(Message::Break, 6).is_none());
    assert_eq!(p.mode, PomodoroState::BreakFive(300));
    assert!(p.update(Message::Tick, 7).is_none());
    assert_eq!(p.mode, PomodoroState::BreakFive(299));
    assert_eq!(p.state, TimeState::Ticking { last_tick: 7 });
    assert!(p.update(Message::Relax, 8).is_none());
    assert_eq!(p.mode, PomodoroState::FifteenRelax(900));
    assert!(p.update(Message::Work, 9).is_none());
    assert_eq!(p.mode, PomodoroState::WorkTwentyFive(1500));
    assert!(p.update(Message::Reset, 10).is_none());
    assert_eq!(p, Pomodoro::default());
}

#[test]
fn update_returns_a_notice_only_for_a_completing_tick() {
    let mut p = Pomodoro {
        mode: PomodoroState::WorkTwentyFive(0),
        state: TimeState::Ticking { last_tick: 0 },
    };
    let notice = p.update(Message::Tick, 1);
    assert!(notice.is_some());
    assert_eq!(notice.unwrap().summary, "Break (00:05:00)");
}

#[test]
fn key_map_sends_space_to_toggle_and_r_to_reset() {
    assert_eq!(key_released(Key::Space), Some(Message::Toggle));
    assert_eq!(key_released(Key::R), Some(Message::Reset));
    assert_eq!(key_released(Key::Other), None);
}

#[test]
fn toggle_label_follows_the_run_state() {
    let mut p = Pomodoro::default();
    assert_eq!(p.toggle_label(), "Start");
    p.toggle(0);
    assert_eq!(p.toggle_label(), "Stop");
}

#[test]
fn title_names_the_application_and_the_phase() {
    let p = Pomodoro::default();
    assert_eq!(p.title(), "Twenty Five and Five — Work (00:25:00)");
    let q = Pomodoro {
        mode: PomodoroState::FifteenRelax(900),
        state: TimeState::Idle,
    };
    assert_eq!(q.title(), "Twenty Five and Five — Relax (00:15:00)");
}

#[test]
fn countdown_text_shows_minutes_and_seconds() {
    let p = Pomodoro {
        mode: PomodoroState::WorkTwentyFive(1500),
        state: TimeState::Idle,
    };
    assert_eq!(p.countdown_text(), "25:00");
}

#[test]
fn display_text_shows_the_phase_and_full_clock() {
    assert_eq!(
        PomodoroState::WorkTwentyFive(3661).display_text(),
        "Work (01:01:01)"
    );
    assert_eq!(PomodoroState::BreakFive(0).display_text(), "Break (00:00:00)");
}
