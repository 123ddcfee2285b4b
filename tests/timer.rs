use labt::clock::{decimal_string, format_duration};
use labt::config::{
    duration_fits, format_default_body, format_input_duration, plan, total_seconds, ConfigError,
    TimerConfig,
};
use labt::countdown::{Countdown, Phase, Step};
use labt::display::{
    audio_failure_message, choose_display, diagnostic, interrupted_message,
    notification_failure_message, render, Display, Render,
};

fn config(hours: u64, minutes: u64, seconds: u64) -> TimerConfig {
    TimerConfig {
        hours,
        minutes,
        seconds,
        notification_title: None,
        notification_body: None,
        disable_notifications: false,
        disable_sound: false,
        quiet: false,
        non_interactive: false,
    }
}

fn run(total: u64, cancels: &[bool]) -> Vec<Step> {
    let mut c = Countdown::new(total);
    cancels.iter().map(|&x| c.tick(x)).collect()
}

#[test]
fn format_duration_pads_each_field() {
    assert_eq!(format_duration(0), "00:00:00");
    assert_eq!(format_duration(3), "00:00:03");
    assert_eq!(format_duration(59), "00:00:59");
    assert_eq!(format_duration(60), "00:01:00");
    assert_eq!(format_duration(3599), "00:59:59");
    assert_eq!(format_duration(3723), "01:02:03");
    assert_eq!(format_duration(86399), "23:59:59");
}

#[test]
fn format_duration_keeps_long_hours() {
    assert_eq!(format_duration(360000), "100:00:00");
    assert_eq!(format_duration(u64::MAX), "5124095576030431:00:15");
}

#[test]
fn decimal_string_writes_digits() {
    assert_eq!(decimal_string(0), "0");
    assert_eq!(decimal_string(7), "7");
    assert_eq!(decimal_string(10), "10");
    assert_eq!(decimal_string(1234567890), "1234567890");
    assert_eq!(decimal_string(u64::MAX), u64::MAX.to_string());
}

#[test]
fn zero_duration_is_rejected() {
    assert_eq!(total_seconds(0, 0, 0), Err(ConfigError::ZeroDuration));
    assert_eq!(ConfigError::ZeroDuration.exit_code(), 1);
}

#[test]
fn total_seconds_adds_the_parts() {
    assert_eq!(total_seconds(0, 0, 3), Ok(3));
    assert_eq!(total_seconds(1, 2, 3), Ok(3723));
    assert_eq!(total_seconds(0, 90, 0), Ok(5400));
    assert_eq!(total_seconds(0, 0, u64::MAX), Ok(u64::MAX));
}

#[test]
fn duration_fits_detects_overflow() {
    assert!(duration_fits(0, 0, 0));
    assert!(duration_fits(1, 2, 3));
    assert!(duration_fits(0, 0, u64::MAX));
    assert!(!duration_fits(u64::MAX, 0, 0));
    assert!(!duration_fits(0, u64::MAX, 0));
    assert!(!duration_fits(0, 1, u64::MAX));
    assert!(duration_fits(u64::MAX / 3600, 0, u64::MAX % 3600));
    assert!(!duration_fits(u64::MAX / 3600, 0, u64::MAX % 3600 + 1));
}

#[test]
fn input_duration_and_default_body() {
    assert_eq!(format_input_duration(0, 0, 3), "0h 0m 3s");
    assert_eq!(format_input_duration(2, 15, 40), "2h 15m 40s");
    assert_eq!(
        format_default_body(0, 1, 30, 90),
        "The timer for 0h 1m 30s (90 seconds) is complete."
    );
}

#[test]
fn three_seconds_scenario() {
    let cfg = TimerConfig { non_interactive: true, ..config(0, 0, 3) };
    let p = plan(&cfg).unwrap();
    assert_eq!(p.total_seconds, 3);
    let steps = run(3, &[false, false, false, false]);
    assert_eq!(steps, vec![Step::Show(3), Step::Show(2), Step::Show(1), Step::Expired]);
    let display = choose_display(cfg.quiet, cfg.non_interactive, true);
    assert_eq!(display, Display::Lines);
    let lines: Vec<Render> = steps.iter().map(|&s| render(display, 3, s)).collect();
    assert_eq!(
        lines,
        vec![
            Render::Text("Time remaining: 00:00:03\n".to_string()),
            Render::Text("Time remaining: 00:00:02\n".to_string()),
            Render::Text("Time remaining: 00:00:01\n".to_string()),
            Render::Text("Time remaining: 00:00:00\n".to_string()),
        ]
    );
    let notice = p.notice.unwrap();
    assert_eq!(notice.title, "Timer Finished!");
    assert_eq!(notice.body, "The timer for 0h 0m 3s (3 seconds) is complete.");
    assert_eq!(notice.icon, "alarm-symbolic");
    assert!(p.play_alarm);
    assert_eq!(steps[3].exit_code(), Some(0));
}

#[test]
fn all_zero_scenario() {
    let cfg = config(0, 0, 0);
    match plan(&cfg) {
        Err(e) => {
            assert_eq!(e, ConfigError::ZeroDuration);
            assert_eq!(e.exit_code(), 1);
            assert_eq!(
                e.messages(),
                vec![
                    "Error: Total duration must be greater than 0 seconds.".to_string(),
                    "Specify desired time with -H/--hours, -M/--minutes and/or -S/--seconds arguments."
                        .to_string(),
                ]
            );
        }
        Ok(_) => panic!("a zero duration was accepted"),
    }
}

#[test]
fn silent_ten_seconds_scenario() {
    let cfg = TimerConfig { disable_notifications: true, disable_sound: true, ..config(0, 0, 10) };
    let p = plan(&cfg).unwrap();
    assert_eq!(p.total_seconds, 10);
    assert!(p.notice.is_none());
    assert!(!p.play_alarm);
    let steps = run(10, &[false; 11]);
    let expected: Vec<Step> = (1..=10).rev().map(Step::Show).chain([Step::Expired]).collect();
    assert_eq!(steps, expected);
    assert_eq!(steps[10].exit_code(), Some(0));
}

#[test]
fn uninterrupted_countdown_reports_every_second() {
    let steps = run(5, &[false; 6]);
    assert_eq!(
        steps,
        vec![Step::Show(5), Step::Show(4), Step::Show(3), Step::Show(2), Step::Show(1), Step::Expired]
    );
    for s in &steps[..5] {
        assert_eq!(s.exit_code(), None);
    }
}

#[test]
fn expired_countdown_stays_expired() {
    let mut c = Countdown::new(1);
    assert_eq!(c.tick(false), Step::Show(1));
    assert_eq!(c.tick(false), Step::Expired);
    assert_eq!(c.tick(true), Step::Expired);
    assert_eq!(c, Countdown { total: 1, remaining: 0, phase: Phase::Expired });
}

#[test]
fn cancellation_in_last_second_interrupts() {
    let mut c = Countdown::new(1);
    assert_eq!(c.tick(false), Step::Show(1));
    let step = c.tick(true);
    assert_eq!(step, Step::Interrupted);
    assert_eq!(step.exit_code(), Some(2));
    assert_eq!(c, Countdown { total: 1, remaining: 0, phase: Phase::Interrupted });
    assert_eq!(run(3, &[false, false, false, true, false]), vec![
        Step::Show(3),
        Step::Show(2),
        Step::Show(1),
        Step::Interrupted,
        Step::Interrupted,
    ]);
}

#[test]
fn cancellation_is_observed_at_the_next_tick() {
    let steps = run(5, &[false, true, false, false, false, false]);
    assert_eq!(steps[0], Step::Show(5));
    assert!(steps[1..].iter().all(|s| *s == Step::Interrupted));
    assert_eq!(steps[1].exit_code(), Some(2));
}

#[test]
fn cancellation_at_first_and_last_tick() {
    assert_eq!(run(3, &[true, false]), vec![Step::Interrupted, Step::Interrupted]);
    let mut c = Countdown::new(3);
    c.tick(false);
    c.tick(false);
    assert_eq!(c.tick(true), Step::Interrupted);
    assert_eq!(c.phase, Phase::Interrupted);
    assert_eq!(c.remaining, 1);
}

#[test]
fn switches_are_independent() {
    let no_notice = plan(&TimerConfig { disable_notifications: true, ..config(0, 0, 3) }).unwrap();
    assert!(no_notice.notice.is_none());
    assert!(no_notice.play_alarm);
    let no_sound = plan(&TimerConfig { disable_sound: true, ..config(0, 0, 3) }).unwrap();
    assert!(no_sound.notice.is_some());
    assert!(!no_sound.play_alarm);
}

#[test]
fn custom_title_and_body() {
    let cfg = TimerConfig {
        notification_title: Some("Tea".to_string()),
        notification_body: Some("Steeped.".to_string()),
        ..config(0, 4, 0)
    };
    let p = plan(&cfg).unwrap();
    assert_eq!(p.total_seconds, 240);
    let notice = p.notice.unwrap();
    assert_eq!(notice.title, "Tea");
    assert_eq!(notice.body, "Steeped.");
}

#[test]
fn generated_body_uses_the_input_as_given() {
    let p = plan(&config(0, 90, 5)).unwrap();
    assert_eq!(p.notice.unwrap().body, "The timer for 0h 90m 5s (5405 seconds) is complete.");
}

#[test]
fn quiet_mode_shows_nothing() {
    for ni in [false, true] {
        for bar in [false, true] {
            assert_eq!(choose_display(true, ni, bar), Display::Silent);
        }
    }
    for s in [Step::Show(4), Step::Show(1), Step::Expired, Step::Interrupted] {
        assert_eq!(render(Display::Silent, 4, s), Render::Nothing);
    }
    assert_eq!(diagnostic(true, "Timer interrupted!".to_string()), None);
    assert_eq!(
        diagnostic(false, "Timer interrupted!".to_string()),
        Some("Timer interrupted!".to_string())
    );
}

#[test]
fn display_precedence() {
    assert_eq!(choose_display(false, true, true), Display::Lines);
    assert_eq!(choose_display(false, false, true), Display::Bar);
    assert_eq!(choose_display(false, false, false), Display::Redraw);
}

#[test]
fn redraw_and_bar_rendering() {
    assert_eq!(
        render(Display::Redraw, 3723, Step::Show(3723)),
        Render::Text("\rTime remaining: 01:02:03 ".to_string())
    );
    assert_eq!(
        render(Display::Redraw, 3, Step::Expired),
        Render::Text("\rTime remaining: 00:00:00\n".to_string())
    );
    assert_eq!(render(Display::Bar, 10, Step::Show(10)), Render::Bar(0));
    assert_eq!(render(Display::Bar, 10, Step::Show(3)), Render::Bar(7));
    assert_eq!(render(Display::Bar, 10, Step::Expired), Render::BarFinished);
    assert_eq!(render(Display::Bar, 10, Step::Interrupted), Render::Nothing);
    assert_eq!(render(Display::Lines, 10, Step::Interrupted), Render::Nothing);
}

#[test]
fn diagnostic_texts() {
    assert_eq!(interrupted_message(), "\nTimer interrupted!");
    assert_eq!(audio_failure_message("no device"), "Failed to create audio player: no device");
    assert_eq!(
        notification_failure_message("no daemon"),
        "Failed to send notification: no daemon"
    );
}
