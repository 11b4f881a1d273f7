//! Display snapshots: the "M:SS" clock text derived from the timer state
//! and pushed to every display sink (window label, tray tooltip).

use crate::state::TimerState;
use vstd::prelude::*;
use vstd::string::StringExecFns;

verus! {

/// The character for one decimal digit.
pub open spec fn digit_char(d: int) -> char {
    if d == 0 {
        '0'
    } else if d == 1 {
        '1'
    } else if d == 2 {
        '2'
    } else if d == 3 {
        '3'
    } else if d == 4 {
        '4'
    } else if d == 5 {
        '5'
    } else if d == 6 {
        '6'
    } else if d == 7 {
        '7'
    } else if d == 8 {
        '8'
    } else {
        '9'
    }
}

/// The decimal digits of a nonnegative number, most significant first,
/// without leading zeros (a single `'0'` for zero itself).
pub open spec fn dec_rep(n: nat) -> Seq<char>
    decreases n,
{
    if n < 10 {
        seq![digit_char(n as int)]
    } else {
        dec_rep(n / 10).push(digit_char((n % 10) as int))
    }
}

/// A two-digit, zero-padded decimal field, as the seconds part of a
/// clock reading uses for values below 100.
pub open spec fn two_digit_rep(n: int) -> Seq<char> {
    seq![digit_char(n / 10), digit_char(n % 10)]
}

/// The clock form "M:SS" of a nonnegative count of seconds: whole
/// minutes, a colon, and the leftover seconds padded to two digits.
pub open spec fn clock_rep(abs: int) -> Seq<char> {
    dec_rep((abs / 60) as nat) + seq![':'] + two_digit_rep(abs % 60)
}

/// The label text for a remaining time: its clock form, with a leading
/// minus sign when the countdown has run past expiry.
pub open spec fn spec_format_time(t: int) -> Seq<char> {
    if t < 0 {
        seq!['-'] + clock_rep(-t)
    } else {
        clock_rep(t)
    }
}

/// The window label text: the remaining time and the configured length,
/// both in clock form.
pub open spec fn spec_window_label(remaining: int, original: int) -> Seq<char> {
    "Remaining: "@ + spec_format_time(remaining) + " / Original: "@ + spec_format_time(original)
}

/// One decimal digit as text.
fn digit_str(d: u64) -> (r: &'static str)
    requires
        d < 10,
    ensures
        r@ == seq![digit_char(d as int)],
{
    proof {
        reveal_strlit("0");
        reveal_strlit("1");
        reveal_strlit("2");
        reveal_strlit("3");
        reveal_strlit("4");
        reveal_strlit("5");
        reveal_strlit("6");
        reveal_strlit("7");
        reveal_strlit("8");
        reveal_strlit("9");
    }
    let r: &'static str = if d == 0 {
        "0"
    } else if d == 1 {
        "1"
    } else if d == 2 {
        "2"
    } else if d == 3 {
        "3"
    } else if d == 4 {
        "4"
    } else if d == 5 {
        "5"
    } else if d == 6 {
        "6"
    } else if d == 7 {
        "7"
    } else if d == 8 {
        "8"
    } else {
        "9"
    };
    proof {
        assert(r@ =~= seq![digit_char(d as int)]);
    }
    r
}

/// Appends the decimal digits of `n` to `out`.
fn push_dec(out: &mut String, n: u64)
    ensures
        final(out)@ == old(out)@ + dec_rep(n as nat),
    decreases n,
{
    if n >= 10 {
        push_dec(out, n / 10);
        out.append(digit_str(n % 10));
    } else {
        out.append(digit_str(n));
    }
    proof {
        assert(out@ =~= old(out)@ + dec_rep(n as nat));
    }
}

/// Renders a remaining time as "M:SS", with a leading minus sign for
/// overrun (negative) readings; the seconds field is always two digits.
pub fn format_time(total_seconds: i64) -> (r: String)
    requires
        total_seconds > i64::MIN,
    ensures
        r@ == spec_format_time(total_seconds as int),
{
    let neg: bool = total_seconds < 0;
    let abs: u64 = if neg {
        (-total_seconds) as u64
    } else {
        total_seconds as u64
    };
    let minutes: u64 = abs / 60;
    let seconds: u64 = abs % 60;
    let mut out: String = String::new();
    if neg {
        out.append("-");
    }
    push_dec(&mut out, minutes);
    out.append(":");
    out.append(digit_str(seconds / 10));
    out.append(digit_str(seconds % 10));
    proof {
        reveal_strlit("-");
        reveal_strlit(":");
        assert(out@ =~= spec_format_time(total_seconds as int));
    }
    out
}

/// Renders the window label: remaining time and configured length side
/// by side, both in clock form.
pub fn window_label(remaining_seconds: i64, original_seconds: i64) -> (r: String)
    requires
        remaining_seconds > i64::MIN,
        original_seconds > i64::MIN,
    ensures
        r@ == spec_window_label(remaining_seconds as int, original_seconds as int),
{
    let mut out: String = String::from_str("Remaining: ");
    let remaining_text: String = format_time(remaining_seconds);
    out.append(remaining_text.as_str());
    out.append(" / Original: ");
    let original_text: String = format_time(original_seconds);
    out.append(original_text.as_str());
    proof {
        assert(out@ =~= spec_window_label(
            remaining_seconds as int,
            original_seconds as int,
        ));
    }
    out
}

/// What one observable change pushes to every display sink: the label
/// text and whether the countdown is running.
#[derive(Debug)]
pub struct DisplaySnapshot {
    /// The remaining time in clock form.
    pub label: String,
    /// Whether ticks are currently decrementing the countdown.
    pub running: bool,
}

/// Computes the display snapshot of a timer state.
pub fn display_snapshot(state: &TimerState) -> (d: DisplaySnapshot)
    requires
        state.remaining > i64::MIN,
    ensures
        d.label@ == spec_format_time(state.remaining as int),
        d.running == state.running,
{
    DisplaySnapshot { label: format_time(state.remaining), running: state.running }
}

} // verus!
