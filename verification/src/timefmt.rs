//! Clock-style rendering of playback positions.
use vstd::prelude::*;
use vstd::string::*;

verus! {

/// The decimal digit character for `d` in `0..10`.
pub open spec fn digit_char(d: int) -> char {
    if d == 0 {
        '0'
    } else if d == 1 {
        '1'
    } else if d == 2 {
        '2'
    } else if d == 3 {
        '3'
    } else if d == 4 {
        '4'
    } else if d == 5 {
        '5'
    } else if d == 6 {
        '6'
    } else if d == 7 {
        '7'
    } else if d == 8 {
        '8'
    } else {
        '9'
    }
}

/// Decimal text of `n`, without leading zeros.
pub open spec fn decimal(n: nat) -> Seq<char>
    decreases n,
{
    if n < 10 {
        seq![digit_char(n as int)]
    } else {
        decimal(n / 10).push(digit_char((n % 10) as int))
    }
}

/// Decimal text of `n`, zero-padded to at least two digits.
pub open spec fn two_digits(n: nat) -> Seq<char> {
    if n < 10 {
        seq!['0'] + decimal(n)
    } else {
        decimal(n)
    }
}

/// Hours, minutes within the hour, and seconds within the minute.
pub open spec fn clock_parts(secs: nat) -> (nat, nat, nat) {
    (secs / 3600, (secs % 3600) / 60, secs % 60)
}

/// `HH:MM:SS`.
pub open spec fn hms_text(secs: nat) -> Seq<char> {
    let (h, m, s) = clock_parts(secs);
    two_digits(h) + seq![':'] + two_digits(m) + seq![':'] + two_digits(s)
}

/// `MM:SS` (minutes within the hour).
pub open spec fn ms_text(secs: nat) -> Seq<char> {
    let (h, m, s) = clock_parts(secs);
    two_digits(m) + seq![':'] + two_digits(s)
}

/// Current and total position, in the style the total's length calls for:
/// `HH:MM:SS` from an hour on, `MM:SS` from a minute on, plain seconds
/// (within the minute) below that.
pub open spec fn time_pair_text(current_secs: nat, total_secs: nat) -> (Seq<char>, Seq<char>) {
    let (th, tm, ts) = clock_parts(total_secs);
    if th > 0 {
        (hms_text(current_secs), hms_text(total_secs))
    } else if tm > 0 {
        (ms_text(current_secs), ms_text(total_secs))
    } else {
        (decimal(current_secs % 60), decimal(ts))
    }
}

/// The one-character text of the digit `d`.
fn digit_text(d: u64) -> (t: &'static str)
    requires
        d < 10,
    ensures
        t@ == seq![digit_char(d as int)],
{
    if d == 0 {
        proof {
            reveal_strlit("0");
        }
        "0"
    } else if d == 1 {
        proof {
            reveal_strlit("1");
        }
        "1"
    } else if d == 2 {
        proof {
            reveal_strlit("2");
        }
        "2"
    } else if d == 3 {
        proof {
            reveal_strlit("3");
        }
        "3"
    } else if d == 4 {
        proof {
            reveal_strlit("4");
        }
        "4"
    } else if d == 5 {
        proof {
            reveal_strlit("5");
        }
        "5"
    } else if d == 6 {
        proof {
            reveal_strlit("6");
        }
        "6"
    } else if d == 7 {
        proof {
            reveal_strlit("7");
        }
        "7"
    } else if d == 8 {
        proof {
            reveal_strlit("8");
        }
        "8"
    } else {
        proof {
            reveal_strlit("9");
        }
        "9"
    }
}

/// Appends the decimal text of `n`.
fn push_decimal(s: &mut String, n: u64)
    ensures
        final(s)@ == old(s)@ + decimal(n as nat),
    decreases n,
{
    if n < 10 {
        s.append(digit_text(n));
        assert(old(s)@ + seq![digit_char(n as int)] == old(s)@ + decimal(n as nat));
    } else {
        push_decimal(s, n / 10);
        s.append(digit_text(n % 10));
        assert(old(s)@ + decimal((n / 10) as nat) + seq![digit_char((n % 10) as int)] == old(s)@
            + decimal(n as nat));
    }
}

/// Appends the zero-padded two-digit text of `n`.
fn push_two_digits(s: &mut String, n: u64)
    ensures
        final(s)@ == old(s)@ + two_digits(n as nat),
{
    if n < 10 {
        proof {
            reveal_strlit("0");
        }
        s.append("0");
    }
    push_decimal(s, n);
    if n < 10 {
        assert(old(s)@ + "0"@ + decimal(n as nat) == old(s)@ + (seq!['0'] + decimal(n as nat)));
    }
}

/// `HH:MM:SS` text of a number of seconds.
fn hms(secs: u64) -> (t: String)
    ensures
        t@ == hms_text(secs as nat),
{
    proof {
        reveal_strlit(":");
    }
    let mut t: String = String::new();
    push_two_digits(&mut t, secs / 3600);
    t.append(":");
    push_two_digits(&mut t, (secs % 3600) / 60);
    t.append(":");
    push_two_digits(&mut t, secs % 60);
    t
}

/// `MM:SS` text of a number of seconds.
fn ms(secs: u64) -> (t: String)
    ensures
        t@ == ms_text(secs as nat),
{
    proof {
        reveal_strlit(":");
    }
    let mut t: String = String::new();
    push_two_digits(&mut t, (secs % 3600) / 60);
    t.append(":");
    push_two_digits(&mut t, secs % 60);
    t
}

/// Plain decimal text of a number.
fn plain(n: u64) -> (t: String)
    ensures
        t@ == decimal(n as nat),
{
    let mut t: String = String::new();
    push_decimal(&mut t, n);
    t
}

/// Format a current and total position (whole seconds) as a pair of texts.
pub fn format_time_pair(current_secs: u64, total_secs: u64) -> (texts: (String, String))
    ensures
        (texts.0@, texts.1@) == time_pair_text(current_secs as nat, total_secs as nat),
{
    let total_hours: u64 = total_secs / 3600;
    let total_mins: u64 = (total_secs % 3600) / 60;
    if total_hours > 0 {
        (hms(current_secs), hms(total_secs))
    } else if total_mins > 0 {
        (ms(current_secs), ms(total_secs))
    } else {
        (plain(current_secs % 60), plain(total_secs % 60))
    }
}

} // verus!
