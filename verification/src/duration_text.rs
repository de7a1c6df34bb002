use vstd::prelude::*;
use vstd::string::*;

use crate::timer::{TimerEngine, TimerMode, TimerStatus};

verus! {

/// The decimal digit character for `d < 10`.
pub open spec fn digit_char(d: nat) -> char {
    (('0' as nat) + d) as char
}

/// The decimal notation of `n`, without leading zeros.
pub open spec fn decimal(n: nat) -> Seq<char>
    decreases n,
{
    if n < 10 {
        seq![digit_char(n)]
    } else {
        decimal(n / 10).push(digit_char(n % 10))
    }
}

/// The decimal notation of `n`, padded with a zero to at least two digits.
pub open spec fn two_digits(n: nat) -> Seq<char> {
    if n < 10 {
        seq!['0', digit_char(n)]
    } else {
        decimal(n)
    }
}

/// A number of seconds as `MM:SS`, or as `HH:MM:SS` from one hour on.
pub open spec fn clock_text(total: nat) -> Seq<char> {
    let h = total / 3600;
    let m = (total % 3600) / 60;
    let s = total % 60;
    if h > 0 {
        two_digits(h) + seq![':'] + two_digits(m) + seq![':'] + two_digits(s)
    } else {
        two_digits(m) + seq![':'] + two_digits(s)
    }
}

/// The text of the mode label: "正计时" for the stopwatch, "倒计时" for the countdown.
pub open spec fn mode_text(mode: TimerMode) -> Seq<char> {
    match mode {
        TimerMode::Stopwatch => seq!['正', '计', '时'],
        TimerMode::Countdown => seq!['倒', '计', '时'],
    }
}

/// The text of the status label.
pub open spec fn status_text(status: TimerStatus) -> Seq<char> {
    match status {
        TimerStatus::Idle => seq!['就', '绪'],
        TimerStatus::Running => seq!['运', '行', '中'],
        TimerStatus::Paused => seq!['暂', '停'],
        TimerStatus::Finished => seq!['已', '结', '束'],
    }
}

fn digit_str(d: u64) -> (s: &'static str)
    requires
        d < 10,
    ensures
        s@ == seq![digit_char(d as nat)],
{
    if d == 0 {
        proof { reveal_strlit("0"); }
        "0"
    } else if d == 1 {
        proof { reveal_strlit("1"); }
        "1"
    } else if d == 2 {
        proof { reveal_strlit("2"); }
        "2"
    } else if d == 3 {
        proof { reveal_strlit("3"); }
        "3"
    } else if d == 4 {
        proof { reveal_strlit("4"); }
        "4"
    } else if d == 5 {
        proof { reveal_strlit("5"); }
        "5"
    } else if d == 6 {
        proof { reveal_strlit("6"); }
        "6"
    } else if d == 7 {
        proof { reveal_strlit("7"); }
        "7"
    } else if d == 8 {
        proof { reveal_strlit("8"); }
        "8"
    } else {
        proof { reveal_strlit("9"); }
        "9"
    }
}

fn append_decimal(out: &mut String, n: u64)
    ensures
        final(out)@ == old(out)@ + decimal(n as nat),
    decreases n,
{
    if n >= 10 {
        append_decimal(out, n / 10);
    }
    out.append(digit_str(n % 10));
    proof {
        if n >= 10 {
            assert(decimal(n as nat) == decimal((n / 10) as nat).push(digit_char((n % 10) as nat)));
        }
    }
}

fn append_two_digits(out: &mut String, n: u64)
    ensures
        final(out)@ == old(out)@ + two_digits(n as nat),
{
    if n < 10 {
        out.append(digit_str(0));
    }
    append_decimal(out, n);
}

fn append_colon(out: &mut String)
    ensures
        final(out)@ == old(out)@ + seq![':'],
{
    proof { reveal_strlit(":"); }
    out.append(":");
}

impl TimerEngine {
    /// Formats a number of seconds as `MM:SS`, or as `HH:MM:SS` from one hour on;
    /// each field has at least two digits, the hours as many as they need.
    pub fn format_duration(total_secs: u64) -> (text: String)
        ensures
            text@ == clock_text(total_secs as nat),
    {
        let h = total_secs / 3600;
        let m = (total_secs % 3600) / 60;
        let s = total_secs % 60;
        let mut out = String::new();
        if h > 0 {
            append_two_digits(&mut out, h);
            append_colon(&mut out);
        }
        append_two_digits(&mut out, m);
        append_colon(&mut out);
        append_two_digits(&mut out, s);
        out
    }

    /// The displayed time of the current mode.
    pub fn display_time(&self) -> (text: String)
        ensures
            text@ == clock_text(self.shown_secs() as nat),
    {
        let total_secs = match self.mode {
            TimerMode::Stopwatch => self.elapsed_secs,
            TimerMode::Countdown => self.remaining_secs,
        };
        Self::format_duration(total_secs)
    }

    /// The label of the current mode.
    pub fn mode_label(&self) -> (label: &'static str)
        ensures
            label@ == mode_text(self.mode),
    {
        match self.mode {
            TimerMode::Stopwatch => {
                proof { reveal_strlit("正计时"); }
                "正计时"
            },
            TimerMode::Countdown => {
                proof { reveal_strlit("倒计时"); }
                "倒计时"
            },
        }
    }

    /// The label of the current status.
    pub fn status_label(&self) -> (label: &'static str)
        ensures
            label@ == status_text(self.status),
    {
        match self.status {
            TimerStatus::Idle => {
                proof { reveal_strlit("就绪"); }
                "就绪"
            },
            TimerStatus::Running => {
                proof { reveal_strlit("运行中"); }
                "运行中"
            },
            TimerStatus::Paused => {
                proof { reveal_strlit("暂停"); }
                "暂停"
            },
            TimerStatus::Finished => {
                proof { reveal_strlit("已结束"); }
                "已结束"
            },
        }
    }
}

} // verus!
