use gtfu::break_timer::{parse_command, tick_second, Action, AfterCountdown, BreakTimer, Command};
use gtfu::cli_parser::{parse_duration, time_parse_err_msg, validate, Cli, ConfigError, DurationError};

#[test]
fn parse_duration_reads_hours_and_minutes() {
    assert_eq!(parse_duration("1:30"), Ok(5400));
    assert_eq!(parse_duration("01:30"), Ok(5400));
    assert_eq!(parse_duration("00:01"), Ok(60));
    assert_eq!(parse_duration("0:45"), Ok(2700));
    assert_eq!(parse_duration("2:0"), Ok(7200));
    assert_eq!(parse_duration("+1:+0"), Ok(3600));
    assert_eq!(parse_duration("255:255"), Ok(255 * 3600 + 255 * 60));
    assert_eq!(parse_duration("000000000000000001:00"), Ok(3600));
}

#[test]
fn parse_duration_refuses_more_than_two_fields() {
    assert_eq!(parse_duration("01:30:00"), Err(DurationError::InvalidFormat));
    assert_eq!(parse_duration("1:2:3"), Err(DurationError::InvalidFormat));
    assert_eq!(parse_duration("0:1:whatever"), Err(DurationError::InvalidFormat));
    assert_eq!(parse_duration("1:30:"), Err(DurationError::InvalidFormat));
    assert_eq!(parse_duration("::"), Err(DurationError::InvalidFormat));
    assert_eq!(parse_duration("x:y:z"), Err(DurationError::InvalidFormat));
}

#[test]
fn parse_duration_refuses_numbers_out_of_range() {
    assert_eq!(parse_duration("256:00"), Err(DurationError::InvalidNumber));
    assert_eq!(parse_duration("00:256"), Err(DurationError::InvalidNumber));
    assert_eq!(parse_duration("1000:0"), Err(DurationError::InvalidNumber));
}

#[test]
fn parse_duration_refuses_text_that_is_not_a_number() {
    assert_eq!(parse_duration("a:1"), Err(DurationError::InvalidNumber));
    assert_eq!(parse_duration("1:-1"), Err(DurationError::InvalidNumber));
    assert_eq!(parse_duration(":"), Err(DurationError::InvalidNumber));
    assert_eq!(parse_duration("1:"), Err(DurationError::InvalidNumber));
    assert_eq!(parse_duration(":30"), Err(DurationError::InvalidNumber));
    assert_eq!(parse_duration(" 1:30"), Err(DurationError::InvalidNumber));
    assert_eq!(parse_duration("1:30 "), Err(DurationError::InvalidNumber));
    assert_eq!(parse_duration("+:30"), Err(DurationError::InvalidNumber));
    assert_eq!(parse_duration("１:30"), Err(DurationError::InvalidNumber));
}

#[test]
fn parse_duration_refuses_text_without_colon() {
    assert_eq!(parse_duration(""), Err(DurationError::InvalidFormat));
    assert_eq!(parse_duration("130"), Err(DurationError::InvalidFormat));
    assert_eq!(parse_duration("1h30"), Err(DurationError::InvalidFormat));
}

#[test]
fn parse_duration_refuses_zero() {
    assert_eq!(parse_duration("0:0"), Err(DurationError::ZeroDuration));
    assert_eq!(parse_duration("00:00"), Err(DurationError::ZeroDuration));
    assert_eq!(parse_duration("+0:+0"), Err(DurationError::ZeroDuration));
}

#[test]
fn parsed_durations_are_whole_positive_minutes() {
    for text in ["0:1", "1:0", "12:34", "255:255", "7:59"] {
        let secs = parse_duration(text).unwrap();
        assert!(secs > 0);
        assert_eq!(secs % 60, 0);
    }
}

#[test]
fn parse_duration_reads_back_every_rendered_duration() {
    for hrs in [0u8, 1, 9, 10, 99, 100, 255] {
        for mins in [0u8, 1, 59, 60, 255] {
            let text = format!("{}:{}", hrs, mins);
            let expected = if hrs == 0 && mins == 0 {
                Err(DurationError::ZeroDuration)
            } else {
                Ok(hrs as u64 * 3600 + mins as u64 * 60)
            };
            assert_eq!(parse_duration(&text), expected);
        }
    }
}

#[test]
fn error_messages() {
    assert_eq!(time_parse_err_msg(), "Number must be between 0 and 255");
    assert_eq!(DurationError::InvalidNumber.message(), "Number must be between 0 and 255");
    assert_eq!(DurationError::ZeroDuration.message(), "Duration must be at least 0");
    assert_eq!(
        DurationError::InvalidFormat.message(),
        "Please use the required format for the duration"
    );
    assert_eq!(
        ConfigError::ResetNotBelowFrequency.message(),
        "Idle reset time cannot be greater than or equals to the break time"
    );
}

#[test]
fn validate_refuses_reset_not_below_frequency() {
    let ok = Cli { freq: 3600, len: 300, reset: Some(600) };
    assert_eq!(validate(&ok), Ok(()));
    let none = Cli { freq: 3600, len: 300, reset: None };
    assert_eq!(validate(&none), Ok(()));
    let equal = Cli { freq: 3600, len: 300, reset: Some(3600) };
    assert_eq!(validate(&equal), Err(ConfigError::ResetNotBelowFrequency));
    let longer = Cli { freq: 60, len: 300, reset: Some(120) };
    assert_eq!(validate(&longer), Err(ConfigError::ResetNotBelowFrequency));
}

#[test]
fn parse_command_reads_letters_in_either_case() {
    assert_eq!(parse_command("N"), Command::Next);
    assert_eq!(parse_command("n"), Command::Next);
    assert_eq!(parse_command("R"), Command::Reset);
    assert_eq!(parse_command("r"), Command::Reset);
    assert_eq!(parse_command("E"), Command::Exit);
    assert_eq!(parse_command("e"), Command::Exit);
}

#[test]
fn parse_command_ignores_surrounding_whitespace() {
    assert_eq!(parse_command("n\n"), Command::Next);
    assert_eq!(parse_command("  r \r\n"), Command::Reset);
    assert_eq!(parse_command("\tE\u{a0}"), Command::Exit);
    assert_eq!(parse_command("\u{3000}n\u{2028}"), Command::Next);
}

#[test]
fn parse_command_other_lines() {
    assert_eq!(parse_command(""), Command::Other);
    assert_eq!(parse_command("\n"), Command::Other);
    assert_eq!(parse_command("x"), Command::Other);
    assert_eq!(parse_command("NN"), Command::Other);
    assert_eq!(parse_command("n e"), Command::Other);
    assert_eq!(parse_command("next"), Command::Other);
}

#[test]
fn tick_second_counts_down() {
    assert_eq!(tick_second(5), (4, false));
    assert_eq!(tick_second(1), (0, true));
}

fn config(freq: u64, len: u64, reset: Option<u64>) -> Cli {
    Cli { freq, len, reset }
}

#[test]
fn new_timer_is_fresh() {
    let t = BreakTimer::new(config(120, 60, None));
    assert_eq!(t.break_freq, 120);
    assert_eq!(t.break_length, 60);
    assert!(!t.is_break);
}

#[test]
fn quiet_polls_count_down_then_break() {
    let cfg = config(3, 60, None);
    let mut t = BreakTimer::new(cfg);
    assert_eq!(t.poll(None), Action::Countdown { remaining: 2, then: AfterCountdown::Sleep });
    assert_eq!(t.poll(None), Action::Countdown { remaining: 1, then: AfterCountdown::Sleep });
    assert_eq!(t.poll(None), Action::Countdown { remaining: 0, then: AfterCountdown::StartBreak });
    assert!(t.is_break);
    assert_eq!(t.break_freq, 3);
    assert_eq!(t.poll(None), Action::TakeBreak { length: 60 });
    t.break_over();
    assert_eq!(t, BreakTimer::new(cfg));
}

#[test]
fn countdown_checks_idle_when_reset_is_configured() {
    let mut t = BreakTimer::new(config(5, 60, Some(2)));
    assert_eq!(t.poll(None), Action::Countdown { remaining: 4, then: AfterCountdown::CheckIdle });
    t.idle_checked(1);
    assert_eq!(t.break_freq, 4);
    assert_eq!(t.poll(None), Action::Countdown { remaining: 3, then: AfterCountdown::CheckIdle });
    t.idle_checked(2);
    assert_eq!(t.break_freq, 5);
    t.idle_checked(100);
    assert_eq!(t.break_freq, 5);
}

#[test]
fn idle_checked_without_reset_changes_nothing() {
    let mut t = BreakTimer::new(config(5, 60, None));
    t.poll(None);
    let before = t;
    t.idle_checked(u64::MAX);
    assert_eq!(t, before);
}

#[test]
fn exit_command_exits_in_every_state() {
    let mut t = BreakTimer::new(config(5, 60, Some(2)));
    let before = t;
    assert_eq!(t.poll(Some(Command::Exit)), Action::Exit);
    assert_eq!(t, before);
    t.poll(Some(Command::Next));
    let before = t;
    assert_eq!(t.poll(Some(Command::Exit)), Action::Exit);
    assert_eq!(t, before);
}

#[test]
fn reset_command_restarts_countdown() {
    let mut t = BreakTimer::new(config(10, 60, None));
    for _ in 0..4 {
        t.poll(None);
    }
    assert_eq!(t.break_freq, 6);
    assert_eq!(t.poll(Some(Command::Reset)), Action::Countdown { remaining: 9, then: AfterCountdown::Sleep });
    assert!(!t.is_break);
}

#[test]
fn next_command_starts_break_then_skips_it() {
    let mut t = BreakTimer::new(config(10, 45, None));
    t.poll(None);
    assert_eq!(t.poll(Some(Command::Next)), Action::TakeBreak { length: 45 });
    assert_eq!(t.break_freq, 10);
    t.break_over();
    // a break that has come due is skipped by the next `N`
    let mut due = BreakTimer::new(config(1, 45, None));
    assert_eq!(due.poll(None), Action::Countdown { remaining: 0, then: AfterCountdown::StartBreak });
    assert!(due.is_break);
    assert_eq!(due.poll(Some(Command::Next)), Action::Countdown { remaining: 0, then: AfterCountdown::StartBreak });
    let mut due = BreakTimer::new(config(4, 45, None));
    due.poll(None);
    due.poll(None);
    due.poll(None);
    assert_eq!(due.poll(None), Action::Countdown { remaining: 0, then: AfterCountdown::StartBreak });
    assert_eq!(due.poll(Some(Command::Next)), Action::Countdown { remaining: 3, then: AfterCountdown::Sleep });
}

#[test]
fn other_command_is_like_none() {
    let mut a = BreakTimer::new(config(10, 45, Some(3)));
    let mut b = a;
    assert_eq!(a.poll(Some(Command::Other)), b.poll(None));
    assert_eq!(a, b);
}

#[test]
fn frequency_of_one_second_breaks_every_poll() {
    let mut t = BreakTimer::new(config(1, 30, None));
    for _ in 0..3 {
        assert_eq!(t.poll(None), Action::Countdown { remaining: 0, then: AfterCountdown::StartBreak });
        assert_eq!(t.poll(None), Action::TakeBreak { length: 30 });
        t.break_over();
    }
}
