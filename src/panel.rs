//! What the front-end shows of a batch: whether it is running, the activity
//! log, and the text of the start button.
use vstd::prelude::*;

use crate::log::{log_after, LogBuffer};
use crate::numerals::{decimal, push_decimal, push_signed_decimal, signed_decimal};
use crate::pool::{CheckerResult, ExitReport};

verus! {

pub open spec fn start_label() -> Seq<char> {
    "Click Here to Start"@
}

pub open spec fn start_label_with_error(err: Seq<char>) -> Seq<char> {
    "Click Here to Start ("@ + err + ")"@
}

/// The process identifier as the log prefixes it.
pub open spec fn pid_prefix(pid: u32) -> Seq<char> {
    "pid #"@ + decimal(pid as nat)
}

/// The exit code of a failed child, `-1` where the platform gave none.
pub open spec fn reported_code(report: ExitReport) -> int {
    match report.code {
        Some(c) => c as int,
        None => -1,
    }
}

pub open spec fn exit_failure_text(report: ExitReport) -> Seq<char> {
    "realesrgan returned "@ + signed_decimal(reported_code(report))
}

/// The log line that an event adds, if any.
pub open spec fn event_log_line(event: CheckerResult) -> Option<Seq<char>> {
    match event {
        CheckerResult::ChildLog(pid, line) => Some(pid_prefix(pid) + ": "@ + line@),
        CheckerResult::ChildExited(pid, report) => Some(
            if report.success {
                pid_prefix(pid) + ": complete!"@
            } else {
                pid_prefix(pid) + ": "@ + exit_failure_text(report)
            },
        ),
        CheckerResult::ChildErrored(pid, message) => Some(pid_prefix(pid) + " ERROR: "@ + message@),
        _ => None,
    }
}

/// The message that an event puts in front of the user at once, if any.
pub open spec fn event_alert(event: CheckerResult) -> Option<Seq<char>> {
    match event {
        CheckerResult::ChildErrored(_, message) => Some(
            "Unexpected error occurred while running RealESRGAN: "@ + message@,
        ),
        CheckerResult::SpawnError(message) => Some(
            "Unable to spawn a realesrgan instance:\n"@ + message@,
        ),
        _ => None,
    }
}

pub struct StatusPanel {
    processing: bool,
    log: LogBuffer,
    start_button_text: String,
}

fn event_line(event: &CheckerResult) -> (line: Option<String>)
    ensures
        match event_log_line(*event) {
            Some(text) => line matches Some(s) && s@ == text,
            None => line is None,
        },
{
    match event {
        CheckerResult::ChildLog(pid, raw) => {
            let mut s = String::from_str("pid #");
            push_decimal(&mut s, *pid);
            s.append(": ");
            s.append(raw.as_str());
            assert(s@ =~= pid_prefix(*pid) + ": "@ + raw@);
            Some(s)
        },
        CheckerResult::ChildExited(pid, report) => {
            let mut s = String::from_str("pid #");
            push_decimal(&mut s, *pid);
            if report.success {
                s.append(": complete!");
                assert(s@ =~= pid_prefix(*pid) + ": complete!"@);
            } else {
                s.append(": ");
                s.append(&exit_failure_string(report));
                assert(s@ =~= pid_prefix(*pid) + ": "@ + exit_failure_text(*report));
            }
            Some(s)
        },
        CheckerResult::ChildErrored(pid, message) => {
            let mut s = String::from_str("pid #");
            push_decimal(&mut s, *pid);
            s.append(" ERROR: ");
            s.append(message.as_str());
            assert(s@ =~= pid_prefix(*pid) + " ERROR: "@ + message@);
            Some(s)
        },
        _ => None,
    }
}

fn exit_failure_string(report: &ExitReport) -> (s: String)
    ensures
        s@ == exit_failure_text(*report),
{
    let mut s = String::from_str("realesrgan returned ");
    let code: i32 = match report.code {
        Some(c) => c,
        None => -1,
    };
    push_signed_decimal(&mut s, code);
    s
}

fn event_alert_string(event: &CheckerResult) -> (alert: Option<String>)
    ensures
        match event_alert(*event) {
            Some(text) => alert matches Some(s) && s@ == text,
            None => alert is None,
        },
{
    match event {
        CheckerResult::ChildErrored(_, message) => {
            let mut s = String::from_str("Unexpected error occurred while running RealESRGAN: ");
            s.append(message.as_str());
            Some(s)
        },
        CheckerResult::SpawnError(message) => {
            let mut s = String::from_str("Unable to spawn a realesrgan instance:\n");
            s.append(message.as_str());
            Some(s)
        },
        _ => None,
    }
}

impl StatusPanel {
    pub closed spec fn spec_processing(&self) -> bool {
        self.processing
    }

    pub closed spec fn spec_log(&self) -> Seq<Seq<char>> {
        self.log@
    }

    pub closed spec fn spec_start_button(&self) -> Seq<char> {
        self.start_button_text@
    }

    /// An idle panel: nothing running, an empty log, the plain start label.
    pub fn new() -> (panel: Self)
        ensures
            !panel.spec_processing(),
            panel.spec_log().len() == 0,
            panel.spec_start_button() == start_label(),
    {
        StatusPanel {
            processing: false,
            log: LogBuffer::new(),
            start_button_text: String::from_str("Click Here to Start"),
        }
    }

    pub fn processing(&self) -> (b: bool)
        ensures
            b == self.spec_processing(),
    {
        self.processing
    }

    pub fn log(&self) -> (log: &LogBuffer)
        ensures
            log@ == self.spec_log(),
    {
        &self.log
    }

    pub fn start_button_text(&self) -> (text: &str)
        ensures
            text@ == self.spec_start_button(),
    {
        self.start_button_text.as_str()
    }

    pub fn set_processing(&mut self, processing: bool)
        ensures
            final(self).spec_processing() == processing,
            final(self).spec_log() == old(self).spec_log(),
            final(self).spec_start_button() == old(self).spec_start_button(),
    {
        self.processing = processing;
    }

    pub fn reset_start_button(&mut self)
        ensures
            final(self).spec_start_button() == start_label(),
            final(self).spec_processing() == old(self).spec_processing(),
            final(self).spec_log() == old(self).spec_log(),
    {
        self.start_button_text = String::from_str("Click Here to Start");
    }

    /// Shows `err` on the start button, after the start label.
    pub fn show_error_on_start_button(&mut self, err: &str)
        ensures
            final(self).spec_start_button() == start_label_with_error(err@),
            final(self).spec_processing() == old(self).spec_processing(),
            final(self).spec_log() == old(self).spec_log(),
    {
        let mut text = String::from_str("Click Here to Start (");
        text.append(err);
        text.append(")");
        self.start_button_text = text;
    }

    /// Takes one event of the supervisor. `Ended` ends the batch; a log
    /// line, an exit or a failed check adds one line, prefixed with the
    /// child's identifier, to the log; a failed exit also shows its code on
    /// the start button. Returns the message to put in front of the user at
    /// once, for a failed check or a failed start.
    pub fn apply_checker_updates(&mut self, result: CheckerResult) -> (alert: Option<String>)
        ensures
            final(self).spec_processing() == if result is Ended {
                false
            } else {
                old(self).spec_processing()
            },
            final(self).spec_log() == match event_log_line(result) {
                Some(line) => log_after(old(self).spec_log(), line),
                None => old(self).spec_log(),
            },
            final(self).spec_start_button() == match result {
                CheckerResult::ChildExited(_, report) => if report.success {
                    old(self).spec_start_button()
                } else {
                    start_label_with_error(exit_failure_text(report))
                },
                _ => old(self).spec_start_button(),
            },
            match event_alert(result) {
                Some(text) => alert matches Some(s) && s@ == text,
                None => alert is None,
            },
    {
        let alert = event_alert_string(&result);
        let line = event_line(&result);
        match line {
            Some(text) => self.log.push(text),
            None => {},
        }
        match result {
            CheckerResult::Ended => {
                self.processing = false;
            },
            CheckerResult::ChildExited(_, report) => {
                if !report.success {
                    let err = exit_failure_string(&report);
                    self.show_error_on_start_button(err.as_str());
                }
            },
            _ => {},
        }
        alert
    }
}

} // verus!
