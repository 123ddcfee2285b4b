use vstd::prelude::*;

use crate::clock::{clock_text, format_duration};
use crate::countdown::Step;

verus! {

/// How the remaining time is shown while counting.
#[derive(Clone, Copy, Debug, PartialEq, Eq, Structural)]
pub enum Display {
    /// Nothing is shown.
    Silent,
    /// One new line per tick.
    Lines,
    /// One line, rewritten in place at each tick.
    Redraw,
    /// A progress bar over the whole duration.
    Bar,
}

/// The display style for a run: quiet mode shows nothing, non-interactive mode
/// prints lines, and otherwise the progress bar is used where it could be
/// built, with a line rewritten in place in its stead.
pub open spec fn display_for(quiet: bool, non_interactive: bool, bar_available: bool) -> Display {
    if quiet {
        Display::Silent
    } else if non_interactive {
        Display::Lines
    } else if bar_available {
        Display::Bar
    } else {
        Display::Redraw
    }
}

/// Picks the display style for a run.
pub fn choose_display(quiet: bool, non_interactive: bool, bar_available: bool) -> (r: Display)
    ensures
        r == display_for(quiet, non_interactive, bar_available),
{
    if quiet {
        Display::Silent
    } else if non_interactive {
        Display::Lines
    } else if bar_available {
        Display::Bar
    } else {
        Display::Redraw
    }
}

/// What to put on standard output for one step of the countdown.
#[derive(Debug, PartialEq, Eq)]
pub enum Render {
    /// Nothing.
    Nothing,
    /// This text, written as it is and flushed.
    Text(String),
    /// Move the progress bar to this many elapsed seconds.
    Bar(u64),
    /// Finish the progress bar.
    BarFinished,
}

/// The report of `r` seconds remaining.
pub open spec fn remaining_text(r: nat) -> Seq<char> {
    "Time remaining: "@ + clock_text(r)
}

/// Whether `out` is what `display` shows for `step` of a countdown of `total`
/// seconds. A line per tick ends each report with a newline; a line rewritten
/// in place starts each with a carriage return and ends it with a space, and
/// the last with a newline. An interruption shows nothing here.
pub open spec fn rendered(display: Display, total: u64, step: Step, out: Render) -> bool {
    match (display, step) {
        (Display::Lines, Step::Show(r)) => out is Text && out->Text_0@ == remaining_text(r as nat)
            + "\n"@,
        (Display::Lines, Step::Expired) => out is Text && out->Text_0@ == remaining_text(0) + "\n"@,
        (Display::Redraw, Step::Show(r)) => out is Text && out->Text_0@ == "\r"@ + remaining_text(
            r as nat,
        ) + " "@,
        (Display::Redraw, Step::Expired) => out is Text && out->Text_0@ == "\r"@ + remaining_text(0)
            + "\n"@,
        (Display::Bar, Step::Show(r)) => out == Render::Bar((total - r) as u64),
        (Display::Bar, Step::Expired) => out == Render::BarFinished,
        _ => out == Render::Nothing,
    }
}

fn remaining_line(r: u64) -> (t: String)
    ensures
        t@ == remaining_text(r as nat),
{
    String::from_str("Time remaining: ").concat(format_duration(r).as_str())
}

/// Works out what to show for one step of a countdown of `total` seconds.
pub fn render(display: Display, total: u64, step: Step) -> (out: Render)
    requires
        step matches Step::Show(r) ==> r <= total,
    ensures
        rendered(display, total, step, out),
{
    match (display, step) {
        (Display::Lines, Step::Show(r)) => Render::Text(remaining_line(r).concat("\n")),
        (Display::Lines, Step::Expired) => Render::Text(remaining_line(0).concat("\n")),
        (Display::Redraw, Step::Show(r)) => {
            let line = String::from_str("\r").concat(remaining_line(r).as_str());
            Render::Text(line.concat(" "))
        },
        (Display::Redraw, Step::Expired) => {
            let line = String::from_str("\r").concat(remaining_line(0).as_str());
            Render::Text(line.concat("\n"))
        },
        (Display::Bar, Step::Show(r)) => Render::Bar(total - r),
        (Display::Bar, Step::Expired) => Render::BarFinished,
        _ => Render::Nothing,
    }
}

/// The diagnostic to write on standard error for `message`: none in quiet mode.
pub fn diagnostic(quiet: bool, message: String) -> (r: Option<String>)
    ensures
        quiet ==> r is None,
        !quiet ==> r == Some(message),
{
    if quiet {
        None
    } else {
        Some(message)
    }
}

/// The line written on standard error when a cancellation stops the countdown.
pub open spec fn interrupted_text() -> Seq<char> {
    "\nTimer interrupted!"@
}

/// The line written on standard error when a cancellation stops the countdown;
/// it starts on a line of its own.
pub fn interrupted_message() -> (r: String)
    ensures
        r@ == interrupted_text(),
{
    String::from_str("\nTimer interrupted!")
}

/// The line written on standard error when the audio device cannot be opened.
pub fn audio_failure_message(detail: &str) -> (r: String)
    ensures
        r@ == "Failed to create audio player: "@ + detail@,
{
    String::from_str("Failed to create audio player: ").concat(detail)
}

/// The line written on standard error when the notification cannot be sent.
pub fn notification_failure_message(detail: &str) -> (r: String)
    ensures
        r@ == "Failed to send notification: "@ + detail@,
{
    String::from_str("Failed to send notification: ").concat(detail)
}

/// Quiet mode shows nothing: whatever the other flags, the display is
/// silent, and a silent display puts nothing on standard output at any step.
pub proof fn lemma_quiet_is_silent(
    non_interactive: bool,
    bar_available: bool,
    total: u64,
    step: Step,
    out: Render,
)
    requires
        rendered(display_for(true, non_interactive, bar_available), total, step, out),
    ensures
        display_for(true, non_interactive, bar_available) == Display::Silent,
        out == Render::Nothing,
{
}

} // verus!
