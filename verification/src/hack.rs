//! A running hack: which host is being drained and how far along it is.

use vstd::prelude::*;
use vstd::string::*;
use crate::text::{padded2, push_padded2};

verus! {

/// The text of a duration: hours, minutes and seconds, each zero-padded to
/// at least two digits (`HH:MM:SS`; hours are not wrapped at a day).
pub open spec fn duration_text(seconds: nat) -> Seq<char> {
    padded2(seconds / 3600) + ":"@ + padded2((seconds / 60) % 60) + ":"@ + padded2(seconds % 60)
}

/// Formats a duration in seconds as `HH:MM:SS`.
pub fn format_duration(seconds: u64) -> (text: String)
    ensures
        text@ == duration_text(seconds as nat),
{
    let mut text = String::new();
    push_padded2(&mut text, seconds / 3_600);
    text.append(":");
    push_padded2(&mut text, seconds / 60 % 60);
    text.append(":");
    push_padded2(&mut text, seconds % 60);
    text
}

/// A hack in progress against a host.
pub struct HackExecution {
    pub hostname: String,
    pub elapsed_seconds: u64,
    pub duration_seconds: u64,
}

/// What a hack in progress is, as plain values.
pub struct HackView {
    pub hostname: Seq<char>,
    pub elapsed_seconds: nat,
    pub duration_seconds: nat,
}

impl View for HackExecution {
    type V = HackView;

    open spec fn view(&self) -> HackView {
        HackView {
            hostname: self.hostname@,
            elapsed_seconds: self.elapsed_seconds as nat,
            duration_seconds: self.duration_seconds as nat,
        }
    }
}

/// The progress line of a hack: `hacking HOST: ELAPSED / DURATION`.
pub open spec fn progress_line(hack: HackView) -> Seq<char> {
    "hacking "@ + hack.hostname + ": "@ + duration_text(hack.elapsed_seconds) + " / "@
        + duration_text(hack.duration_seconds)
}

impl HackView {
    /// A hack never runs past its duration.
    pub open spec fn well_formed(self) -> bool {
        self.elapsed_seconds <= self.duration_seconds
    }

    /// Whether the hack has run for its whole duration.
    pub open spec fn is_complete(self) -> bool {
        self.elapsed_seconds >= self.duration_seconds
    }
}

impl HackExecution {
    /// The progress line shown under the terminal while the hack runs.
    pub fn progress_text(&self) -> (text: String)
        ensures
            text@ == progress_line(self@),
    {
        let mut text = String::from_str("hacking ");
        text.append(self.hostname.as_str());
        text.append(": ");
        let elapsed = format_duration(self.elapsed_seconds);
        text.append(elapsed.as_str());
        text.append(" / ");
        let duration = format_duration(self.duration_seconds);
        text.append(duration.as_str());
        text
    }
}

} // verus!
