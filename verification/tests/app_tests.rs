use multi_counter::app::{App, InputEvent, KeyCode};
use multi_counter::counter::Counter;
use multi_counter::errors::AppError;

#[test]
fn handle_key_event() {
    let mut app = App::default();
    app.handle_key_event(KeyCode::Char('k')).unwrap();
    assert_eq!(app.counters[0].counter, 1);

    app.handle_key_event(KeyCode::Char('j')).unwrap();
    assert_eq!(app.counters[0].counter, 0);

    let mut app = App::default();
    app.handle_key_event(KeyCode::Char('q')).unwrap();
    assert!(app.exit);
}

#[test]
fn handle_key_event_overflow() {
    let mut app = App::default();
    println!("{:?}", app);
    assert!(app.handle_key_event(KeyCode::Char('k')).is_ok());
    println!("{:?}", app);
    assert!(app.handle_key_event(KeyCode::Char('k')).is_ok());
    assert_eq!(
        app.handle_key_event(KeyCode::Char('k'))
            .unwrap_err()
            .message(),
        "counter overflow"
    );
}

#[test]
fn decrement_at_zero_reports_underflow() {
    let mut app = App::default();
    let err = app.handle_key_event(KeyCode::Char('j')).unwrap_err();
    assert!(matches!(err, AppError::CounterUnderflow));
    assert_eq!(err.message(), "counter underflow");
    assert_eq!(app.counters[0].counter, 0);
}

#[test]
fn startup_state() {
    let app = App::default();
    assert_eq!(app.counters.len(), 3);
    assert_eq!(app.focus_on, 0);
    assert!(!app.exit);
    assert!(app.counters[0].focused);
    assert!(!app.counters[1].focused);
    assert!(!app.counters[2].focused);
    assert!(app.counters.iter().all(|c| c.counter == 0));
}

#[test]
fn focus_moves_keep_exactly_one_focused() {
    let mut app = App::default();
    let keys = ['l', 'l', 'l', 'h', 'l', 'h', 'h', 'h'];
    let mut expected: usize = 0;
    for &k in keys.iter() {
        if k == 'l' {
            expected = (expected + 1) % 3;
        } else {
            expected = (expected + 2) % 3;
        }
        app.handle_key_event(KeyCode::Char(k)).unwrap();
        assert_eq!(app.focus_on, expected);
        let focused: usize = app.counters.iter().filter(|c| c.focused).count();
        assert_eq!(focused, 1);
        assert!(app.counters[app.focus_on].focused);
    }
}

#[test]
fn focus_next_then_previous_round_trip() {
    for start in 0..3usize {
        let mut app = App::default();
        for _ in 0..start {
            app.handle_key_event(KeyCode::Char('l')).unwrap();
        }
        assert_eq!(app.focus_on, start);
        app.handle_key_event(KeyCode::Char('l')).unwrap();
        app.handle_key_event(KeyCode::Char('h')).unwrap();
        assert_eq!(app.focus_on, start);
        app.handle_key_event(KeyCode::Char('h')).unwrap();
        app.handle_key_event(KeyCode::Char('l')).unwrap();
        assert_eq!(app.focus_on, start);
    }
}

#[test]
fn increment_and_decrement_by_exactly_one() {
    let mut app = App::default();
    assert_eq!(app.counters[0].counter, 0);
    app.handle_key_event(KeyCode::Char('k')).unwrap();
    assert_eq!(app.counters[0].counter, 1);
    app.handle_key_event(KeyCode::Char('k')).unwrap();
    assert_eq!(app.counters[0].counter, 2);
    app.handle_key_event(KeyCode::Char('j')).unwrap();
    assert_eq!(app.counters[0].counter, 1);
    app.handle_key_event(KeyCode::Char('j')).unwrap();
    assert_eq!(app.counters[0].counter, 0);
}

#[test]
fn overflow_on_single_counter() {
    let mut app = App {
        focus_on: 0,
        counters: vec![Counter {
            focused: true,
            counter: 0,
        }],
        exit: false,
    };
    assert!(app.handle_key_event(KeyCode::Char('k')).is_ok());
    assert!(app.handle_key_event(KeyCode::Char('k')).is_ok());
    let err = app.handle_key_event(KeyCode::Char('k')).unwrap_err();
    assert!(matches!(err, AppError::CounterOverflow));
    assert_eq!(app.counters[0].counter, 2);
    assert_eq!(app.focus_on, 0);
    assert!(!app.exit);
}

#[test]
fn quit_first_key_changes_only_exit() {
    let mut app = App::default();
    app.handle_key_event(KeyCode::Char('q')).unwrap();
    assert!(app.exit);
    assert_eq!(app.focus_on, 0);
    assert!(app.counters[0].focused);
    assert!(!app.counters[1].focused);
    assert!(!app.counters[2].focused);
    assert!(app.counters.iter().all(|c| c.counter == 0));
    app.handle_key_event(KeyCode::Char('q')).unwrap();
    assert!(app.exit);
}

#[test]
fn scenario_mixed_keys() {
    let mut app = App::default();
    let keys = ['k', 'k', 'l', 'k', 'h', 'j'];
    for &k in keys.iter() {
        app.handle_key_event(KeyCode::Char(k)).unwrap();
    }
    assert_eq!(app.focus_on, 0);
    assert_eq!(app.counters[0].counter, 1);
    assert_eq!(app.counters[1].counter, 1);
    assert_eq!(app.counters[2].counter, 0);
}

#[test]
fn unrecognized_keys_are_ignored() {
    let mut app = App::default();
    app.handle_key_event(KeyCode::Char('x')).unwrap();
    app.handle_key_event(KeyCode::Char('Q')).unwrap();
    app.handle_key_event(KeyCode::Other).unwrap();
    assert_eq!(app.focus_on, 0);
    assert!(!app.exit);
    assert!(app.counters.iter().all(|c| c.counter == 0));
}

#[test]
fn only_key_presses_act() {
    let mut app = App::default();
    app.handle_event(InputEvent::KeyPress(KeyCode::Char('k')))
        .unwrap();
    assert_eq!(app.counters[0].counter, 1);
    app.handle_event(InputEvent::Other).unwrap();
    assert_eq!(app.counters[0].counter, 1);
    assert_eq!(app.focus_on, 0);
    assert!(!app.exit);
}

#[test]
fn error_messages() {
    assert_eq!(AppError::CounterOverflow.message(), "counter overflow");
    assert_eq!(AppError::CounterUnderflow.message(), "counter underflow");
    assert_eq!(
        AppError::TerminalInitError.message(),
        "failed to initialize terminal"
    );
    assert_eq!(
        AppError::TerminalRestoreError.message(),
        "failed to restore terminal"
    );
    assert_eq!(
        AppError::InputReadError.message(),
        "failed to read input event"
    );
}

#[test]
fn value_string_shows_the_value() {
    let mut c = Counter::start_focused();
    assert_eq!(c.value_string(), "0");
    c.increment().unwrap();
    assert_eq!(c.value_string(), "1");
    c.increment().unwrap();
    assert_eq!(c.value_string(), "2");
    assert!(matches!(c.increment().unwrap_err(), AppError::CounterOverflow));
    assert_eq!(c.value_string(), "2");
}

#[test]
fn well_formedness_check() {
    let app = App::default();
    assert!(app.is_well_formed());

    let no_counters = App {
        focus_on: 0,
        counters: vec![],
        exit: false,
    };
    assert!(!no_counters.is_well_formed());

    let focus_out_of_range = App {
        focus_on: 2,
        counters: vec![Counter {
            focused: true,
            counter: 0,
        }],
        exit: false,
    };
    assert!(!focus_out_of_range.is_well_formed());

    let mark_missing = App {
        focus_on: 0,
        counters: vec![Counter {
            focused: false,
            counter: 0,
        }],
        exit: false,
    };
    assert!(!mark_missing.is_well_formed());

    let value_out_of_range = App {
        focus_on: 0,
        counters: vec![Counter {
            focused: true,
            counter: 3,
        }],
        exit: false,
    };
    assert!(!value_out_of_range.is_well_formed());
}
