//! The in-game clock: seconds since the start of a level, read as a time of day.

use vstd::prelude::*;
use vstd::string::*;
use crate::text::{decimal, digit_char, padded2, push_padded2};

verus! {

/// In-game time, counted in whole seconds from midnight of the first day.
pub struct Clock {
    seconds: u64,
}

/// The text of a time of day: `HH:MM:SS`, each part zero-padded to two digits.
pub open spec fn clock_text(hour: nat, minute: nat, second: nat) -> Seq<char> {
    padded2(hour) + ":"@ + padded2(minute) + ":"@ + padded2(second)
}

impl View for Clock {
    type V = nat;

    /// The elapsed seconds.
    closed spec fn view(&self) -> nat {
        self.seconds as nat
    }
}

impl Clock {
    /// The hour of the day at `seconds`.
    pub open spec fn spec_hour(seconds: nat) -> nat {
        (seconds / 3600) % 24
    }

    /// The minute of the hour at `seconds`.
    pub open spec fn spec_minute(seconds: nat) -> nat {
        (seconds / 60) % 60
    }

    /// The second of the minute at `seconds`.
    pub open spec fn spec_second(seconds: nat) -> nat {
        seconds % 60
    }

    /// A clock at midnight, no time elapsed.
    pub fn new() -> (clock: Clock)
        ensures
            clock@ == 0,
    {
        Clock { seconds: 0 }
    }

    /// A clock on which `seconds` have elapsed.
    pub fn from_elapsed_seconds(seconds: u64) -> (clock: Clock)
        ensures
            clock@ == seconds,
    {
        Clock { seconds }
    }

    /// Lets `seconds` of in-game time pass.
    pub fn advance_by(&mut self, seconds: u64)
        requires
            old(self)@ + seconds <= u64::MAX,
        ensures
            final(self)@ == old(self)@ + seconds,
    {
        self.seconds = self.seconds + seconds;
    }

    /// The seconds elapsed since the start.
    pub fn elapsed_seconds(&self) -> (seconds: u64)
        ensures
            seconds == self@,
    {
        self.seconds
    }

    /// The hour of the day, 0 to 23.
    pub fn hour(&self) -> (hour: u64)
        ensures
            hour == Self::spec_hour(self@),
    {
        (self.seconds / 3_600) % 24
    }

    /// The minute of the hour, 0 to 59.
    pub fn minute(&self) -> (minute: u64)
        ensures
            minute == Self::spec_minute(self@),
    {
        (self.seconds / 60) % 60
    }

    /// The second of the minute, 0 to 59.
    pub fn second(&self) -> (second: u64)
        ensures
            second == Self::spec_second(self@),
    {
        self.seconds % 60
    }

    /// The time of day as `HH:MM:SS`.
    pub fn display_text(&self) -> (text: String)
        ensures
            text@ == clock_text(
                Self::spec_hour(self@),
                Self::spec_minute(self@),
                Self::spec_second(self@),
            ),
    {
        let mut text = String::new();
        push_padded2(&mut text, self.hour());
        text.append(":");
        push_padded2(&mut text, self.minute());
        text.append(":");
        push_padded2(&mut text, self.second());
        text
    }
}

impl Default for Clock {
    fn default() -> (clock: Clock)
        ensures
            clock@ == 0,
    {
        Clock::new()
    }
}

/// The time of day read from a clock gives back the elapsed seconds modulo a
/// day: `hour * 3600 + minute * 60 + second == seconds % 86400`, with each
/// part in its range.
pub proof fn lemma_time_parts_rebuild_time_of_day(seconds: nat)
    ensures
        Clock::spec_hour(seconds) < 24,
        Clock::spec_minute(seconds) < 60,
        Clock::spec_second(seconds) < 60,
        Clock::spec_hour(seconds) * 3600 + Clock::spec_minute(seconds) * 60
            + Clock::spec_second(seconds) == seconds % 86400,
{
    let h = seconds / 3600;
    let m = seconds / 60;
    assert(seconds == m * 60 + seconds % 60) by {
        vstd::arithmetic::div_mod::lemma_fundamental_div_mod(seconds as int, 60);
    }
    assert(m == h * 60 + m % 60) by {
        assert(m / 60 == h) by {
            vstd::arithmetic::div_mod::lemma_div_denominator(seconds as int, 60, 60);
        }
        vstd::arithmetic::div_mod::lemma_fundamental_div_mod(m as int, 60);
    }
    let d = seconds / 86400;
    assert(h / 24 == d) by {
        vstd::arithmetic::div_mod::lemma_div_denominator(seconds as int, 3600, 24);
    }
    assert(h == d * 24 + h % 24) by {
        vstd::arithmetic::div_mod::lemma_fundamental_div_mod(h as int, 24);
    }
    assert(seconds == d * 86400 + seconds % 86400) by {
        vstd::arithmetic::div_mod::lemma_fundamental_div_mod(seconds as int, 86400);
    }
    assert(seconds == (d * 24 + h % 24) * 3600 + (m % 60) * 60 + seconds % 60) by (nonlinear_arith)
        requires
            seconds == m * 60 + seconds % 60,
            m == h * 60 + m % 60,
            h == d * 24 + h % 24,
    ;
    assert((h % 24) * 3600 + (m % 60) * 60 + seconds % 60 == seconds % 86400) by (nonlinear_arith)
        requires
            seconds == (d * 24 + h % 24) * 3600 + (m % 60) * 60 + seconds % 60,
            seconds == d * 86400 + seconds % 86400,
            h % 24 < 24, m % 60 < 60, seconds % 60 < 60, seconds % 86400 < 86400,
    ;
}

/// A number below 100, zero-padded to two digits, is its tens digit then
/// its units digit.
pub proof fn lemma_padded2_digits(n: nat)
    requires
        n < 100,
    ensures
        padded2(n) == seq![digit_char(n / 10), digit_char(n % 10)],
{
    if n >= 10 {
        reveal_with_fuel(decimal, 2);
        assert(decimal(n / 10) == seq![digit_char(n / 10)]);
        assert(padded2(n) =~= seq![digit_char(n / 10), digit_char(n % 10)]);
    }
}

/// The clock text reads back as the time of day of the elapsed seconds: it
/// has eight characters, the hour's two digits, a colon, the minute's two
/// digits, a colon and the second's two digits.
pub proof fn lemma_clock_text_reads_back(seconds: nat)
    ensures
        ({
            let text = clock_text(
                Clock::spec_hour(seconds),
                Clock::spec_minute(seconds),
                Clock::spec_second(seconds),
            );
            let hour = (seconds / 3600) % 24;
            let minute = (seconds / 60) % 60;
            let second = seconds % 60;
            &&& text.len() == 8
            &&& text[0] == digit_char(hour / 10)
            &&& text[1] == digit_char(hour % 10)
            &&& text[2] == ':'
            &&& text[3] == digit_char(minute / 10)
            &&& text[4] == digit_char(minute % 10)
            &&& text[5] == ':'
            &&& text[6] == digit_char(second / 10)
            &&& text[7] == digit_char(second % 10)
        }),
{
    let hour = (seconds / 3600) % 24;
    let minute = (seconds / 60) % 60;
    let second = seconds % 60;
    lemma_padded2_digits(hour);
    lemma_padded2_digits(minute);
    lemma_padded2_digits(second);
    reveal_strlit(":");
    let text = clock_text(hour, minute, second);
    assert(text =~= seq![
        digit_char(hour / 10),
        digit_char(hour % 10),
        ':',
        digit_char(minute / 10),
        digit_char(minute % 10),
        ':',
        digit_char(second / 10),
        digit_char(second % 10),
    ]);
}

} // verus!
