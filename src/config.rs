use vstd::prelude::*;

use crate::clock::{decimal, decimal_string};

verus! {

/// What the user asked of one run of the timer.
pub struct TimerConfig {
    pub hours: u64,
    pub minutes: u64,
    pub seconds: u64,
    /// The notification's title; `None` asks for the default one.
    pub notification_title: Option<String>,
    /// The notification's body; `None` asks for a generated one.
    pub notification_body: Option<String>,
    pub disable_notifications: bool,
    pub disable_sound: bool,
    pub quiet: bool,
    pub non_interactive: bool,
}

/// Why a configuration cannot be run.
#[derive(Clone, Copy, Debug, PartialEq, Eq, Structural)]
pub enum ConfigError {
    /// The hours, minutes and seconds add up to nothing.
    ZeroDuration,
}

impl ConfigError {
    /// The process exit status for this error.
    pub fn exit_code(&self) -> (r: i32)
        ensures
            r == 1,
    {
        1
    }

    /// The lines written on standard error for this error, outside quiet mode.
    pub fn messages(&self) -> (r: Vec<String>)
        ensures
            r@.len() == 2,
            r@[0]@ == zero_duration_lines()[0],
            r@[1]@ == zero_duration_lines()[1],
    {
        let mut lines: Vec<String> = Vec::new();
        lines.push(String::from_str("Error: Total duration must be greater than 0 seconds."));
        lines.push(
            String::from_str(
                "Specify desired time with -H/--hours, -M/--minutes and/or -S/--seconds arguments.",
            ),
        );
        lines
    }
}

/// The explanation of an empty duration: what is wrong, then how to set a time.
pub open spec fn zero_duration_lines() -> Seq<Seq<char>> {
    seq![
        "Error: Total duration must be greater than 0 seconds."@,
        "Specify desired time with -H/--hours, -M/--minutes and/or -S/--seconds arguments."@,
    ]
}

/// The length in seconds of a duration given in hours, minutes and seconds.
pub open spec fn total_of(hours: u64, minutes: u64, seconds: u64) -> int {
    hours * 3600 + minutes * 60 + seconds
}

/// Tells whether the total number of seconds fits in a `u64`.
pub fn duration_fits(hours: u64, minutes: u64, seconds: u64) -> (r: bool)
    ensures
        r == (total_of(hours, minutes, seconds) <= u64::MAX),
{
    match hours.checked_mul(3600) {
        None => false,
        Some(h) => match minutes.checked_mul(60) {
            None => false,
            Some(m) => match h.checked_add(m) {
                None => false,
                Some(hm) => hm.checked_add(seconds).is_some(),
            },
        },
    }
}

/// Resolves a duration into its total number of seconds, refusing an empty one.
pub fn total_seconds(hours: u64, minutes: u64, seconds: u64) -> (r: Result<u64, ConfigError>)
    requires
        total_of(hours, minutes, seconds) <= u64::MAX,
    ensures
        total_of(hours, minutes, seconds) == 0 <==> r == Err::<u64, ConfigError>(
            ConfigError::ZeroDuration,
        ),
        total_of(hours, minutes, seconds) > 0 <==> r == Ok::<u64, ConfigError>(
            total_of(hours, minutes, seconds) as u64,
        ),
{
    let total = hours * 3600 + minutes * 60 + seconds;
    if total == 0 {
        Err(ConfigError::ZeroDuration)
    } else {
        Ok(total)
    }
}

/// The duration as the user gave it, such as `0h 1m 30s`.
pub open spec fn duration_text(hours: u64, minutes: u64, seconds: u64) -> Seq<char> {
    decimal(hours as nat) + "h "@ + decimal(minutes as nat) + "m "@ + decimal(seconds as nat) + "s"@
}

/// The notification body used when none was given.
pub open spec fn default_body(hours: u64, minutes: u64, seconds: u64, total: u64) -> Seq<char> {
    "The timer for "@ + duration_text(hours, minutes, seconds) + " ("@ + decimal(total as nat)
        + " seconds) is complete."@
}

/// The notification title used when none was given.
pub open spec fn default_title() -> Seq<char> {
    "Timer Finished!"@
}

/// Writes the duration as the user gave it.
pub fn format_input_duration(hours: u64, minutes: u64, seconds: u64) -> (r: String)
    ensures
        r@ == duration_text(hours, minutes, seconds),
{
    let text = decimal_string(hours).concat("h ");
    let text = text.concat(decimal_string(minutes).as_str());
    let text = text.concat("m ");
    let text = text.concat(decimal_string(seconds).as_str());
    text.concat("s")
}

/// Writes the notification body used when none was given.
pub fn format_default_body(hours: u64, minutes: u64, seconds: u64, total: u64) -> (r: String)
    ensures
        r@ == default_body(hours, minutes, seconds, total),
{
    let text = String::from_str("The timer for ");
    let text = text.concat(format_input_duration(hours, minutes, seconds).as_str());
    let text = text.concat(" (");
    let text = text.concat(decimal_string(total).as_str());
    text.concat(" seconds) is complete.")
}

/// The icon that every notification carries.
pub open spec fn notification_icon() -> Seq<char> {
    "alarm-symbolic"@
}

/// The desktop notification to show when the time runs out.
pub struct Notice {
    pub title: String,
    pub body: String,
    /// The identifier of the icon, from the desktop's icon theme.
    pub icon: String,
}

/// What a run does: how long it counts, and what it does when the time runs out.
pub struct Plan {
    pub total_seconds: u64,
    /// The notification to show, if notifications are enabled.
    pub notice: Option<Notice>,
    /// Whether the alarm sound is to be played, and so the audio device opened.
    pub play_alarm: bool,
}

/// The title, body and icon of the notification that `config` asks for, if
/// any, for a countdown of `total` seconds.
pub open spec fn notice_of(config: TimerConfig, total: u64) -> Option<
    (Seq<char>, Seq<char>, Seq<char>),
> {
    if config.disable_notifications {
        None
    } else {
        let title = match config.notification_title {
            Some(t) => t@,
            None => default_title(),
        };
        let body = match config.notification_body {
            Some(b) => b@,
            None => default_body(config.hours, config.minutes, config.seconds, total),
        };
        Some((title, body, notification_icon()))
    }
}

/// Whether `config` asks for the alarm sound.
pub open spec fn alarm_of(config: TimerConfig) -> bool {
    !config.disable_sound
}

/// The notice as the title, body and icon that it shows.
pub open spec fn notice_view(n: Option<Notice>) -> Option<(Seq<char>, Seq<char>, Seq<char>)> {
    match n {
        Some(n) => Some((n.title@, n.body@, n.icon@)),
        None => None,
    }
}

/// Checks a configuration and works out what its run does.
pub fn plan(config: &TimerConfig) -> (r: Result<Plan, ConfigError>)
    requires
        total_of(config.hours, config.minutes, config.seconds) <= u64::MAX,
    ensures
        total_of(config.hours, config.minutes, config.seconds) == 0 <==> r is Err,
        r is Err ==> r->Err_0 == ConfigError::ZeroDuration,
        r is Ok ==> {
            &&& r->Ok_0.total_seconds == total_of(config.hours, config.minutes, config.seconds)
            &&& notice_view(r->Ok_0.notice) == notice_of(*config, r->Ok_0.total_seconds)
            &&& r->Ok_0.play_alarm == alarm_of(*config)
        },
{
    let total = match total_seconds(config.hours, config.minutes, config.seconds) {
        Err(e) => {
            return Err(e);
        },
        Ok(t) => t,
    };
    let notice = if config.disable_notifications {
        None
    } else {
        let title = match &config.notification_title {
            Some(t) => t.clone(),
            None => String::from_str("Timer Finished!"),
        };
        let body = match &config.notification_body {
            Some(b) => b.clone(),
            None => format_default_body(config.hours, config.minutes, config.seconds, total),
        };
        Some(Notice { title, body, icon: String::from_str("alarm-symbolic") })
    };
    Ok(Plan { total_seconds: total, notice, play_alarm: !config.disable_sound })
}

/// Turning notifications off removes the notification and nothing else;
/// turning the sound off removes the alarm and nothing else.
pub proof fn lemma_switches_independent(config: TimerConfig, total: u64)
    ensures
        notice_of(config, total) is None <==> config.disable_notifications,
        alarm_of(config) <==> !config.disable_sound,
        notice_of(
            (TimerConfig { disable_sound: !config.disable_sound, ..config }),
            total,
        ) == notice_of(config, total),
        alarm_of((TimerConfig { disable_notifications: !config.disable_notifications, ..config }))
            == alarm_of(config),
{
}

} // verus!
