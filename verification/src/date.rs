//! Local calendar readings as plain fields, and their fixed text forms:
//! the day's directory name `YYYY-MM-DD` and the filesystem-safe stamp
//! `YYYY-MM-DDTHH_MM_SS` used in backup names.

use vstd::prelude::*;
use vstd::string::StringExecFns;

verus! {

/// A local date and time, read once at the start of a run and passed in as
/// plain fields.
pub struct LocalStamp {
    pub year: u32,
    pub month: u32,
    pub day: u32,
    pub hour: u32,
    pub minute: u32,
    pub second: u32,
}

impl LocalStamp {
    /// The fields lie in the ranges of a zero-padded calendar reading.
    pub open spec fn wf(self) -> bool {
        &&& self.year <= 9999
        &&& 1 <= self.month <= 12
        &&& 1 <= self.day <= 31
        &&& self.hour <= 23
        &&& self.minute <= 59
        &&& self.second <= 59
    }
}

/// The character of one decimal digit.
pub open spec fn digit_char(d: nat) -> char {
    if d == 0 {
        '0'
    } else if d == 1 {
        '1'
    } else if d == 2 {
        '2'
    } else if d == 3 {
        '3'
    } else if d == 4 {
        '4'
    } else if d == 5 {
        '5'
    } else if d == 6 {
        '6'
    } else if d == 7 {
        '7'
    } else if d == 8 {
        '8'
    } else {
        '9'
    }
}

/// Two decimal digits, zero padded.
pub open spec fn two_digits(n: nat) -> Seq<char> {
    seq![digit_char((n / 10) % 10), digit_char(n % 10)]
}

/// Four decimal digits, zero padded.
pub open spec fn four_digits(n: nat) -> Seq<char> {
    seq![
        digit_char((n / 1000) % 10),
        digit_char((n / 100) % 10),
        digit_char((n / 10) % 10),
        digit_char(n % 10),
    ]
}

/// The name of the day's directory: `YYYY-MM-DD`.
pub open spec fn date_dir_name_spec(d: LocalStamp) -> Seq<char> {
    four_digits(d.year as nat) + seq!['-'] + two_digits(d.month as nat) + seq!['-'] + two_digits(
        d.day as nat,
    )
}

/// The colon-free date-time stamp appended to backup names:
/// `YYYY-MM-DDTHH_MM_SS`.
pub open spec fn backup_stamp_spec(d: LocalStamp) -> Seq<char> {
    date_dir_name_spec(d) + seq!['T'] + two_digits(d.hour as nat) + seq!['_'] + two_digits(
        d.minute as nat,
    ) + seq!['_'] + two_digits(d.second as nat)
}

/// One decimal digit as text.
pub(crate) fn digit_str(d: u32) -> (r: &'static str)
    requires
        d < 10,
    ensures
        r@ == seq![digit_char(d as nat)],
{
    let r: &'static str = if d == 0 {
        "0"
    } else if d == 1 {
        "1"
    } else if d == 2 {
        "2"
    } else if d == 3 {
        "3"
    } else if d == 4 {
        "4"
    } else if d == 5 {
        "5"
    } else if d == 6 {
        "6"
    } else if d == 7 {
        "7"
    } else if d == 8 {
        "8"
    } else {
        "9"
    };
    proof {
        reveal_strlit("0");
        reveal_strlit("1");
        reveal_strlit("2");
        reveal_strlit("3");
        reveal_strlit("4");
        reveal_strlit("5");
        reveal_strlit("6");
        reveal_strlit("7");
        reveal_strlit("8");
        reveal_strlit("9");
        assert(r@ =~= seq![digit_char(d as nat)]);
    }
    r
}

/// Appends `n` as two zero-padded decimal digits.
fn push_two_digits(s: &mut String, n: u32)
    requires
        n < 100,
    ensures
        final(s)@ == old(s)@ + two_digits(n as nat),
{
    s.append(digit_str(n / 10));
    s.append(digit_str(n % 10));
    proof {
        assert(s@ =~= old(s)@ + two_digits(n as nat));
    }
}

/// Appends `n` as four zero-padded decimal digits.
fn push_four_digits(s: &mut String, n: u32)
    requires
        n < 10000,
    ensures
        final(s)@ == old(s)@ + four_digits(n as nat),
{
    s.append(digit_str(n / 1000));
    s.append(digit_str((n / 100) % 10));
    s.append(digit_str((n / 10) % 10));
    s.append(digit_str(n % 10));
    proof {
        assert(s@ =~= old(s)@ + four_digits(n as nat));
    }
}

/// Formats the date part of `now` as `YYYY-MM-DD`, the name under which the
/// day's directory is created.
pub fn today_dir_name(now: &LocalStamp) -> (r: String)
    requires
        now.wf(),
    ensures
        r@ == date_dir_name_spec(*now),
{
    let mut r = String::new();
    push_four_digits(&mut r, now.year);
    r.append("-");
    push_two_digits(&mut r, now.month);
    r.append("-");
    push_two_digits(&mut r, now.day);
    proof {
        reveal_strlit("-");
        assert(r@ =~= date_dir_name_spec(*now));
    }
    r
}

/// Formats `now` as the filesystem-safe stamp `YYYY-MM-DDTHH_MM_SS` that
/// backup names carry.
pub fn backup_stamp(now: &LocalStamp) -> (r: String)
    requires
        now.wf(),
    ensures
        r@ == backup_stamp_spec(*now),
{
    let mut r = String::new();
    push_four_digits(&mut r, now.year);
    r.append("-");
    push_two_digits(&mut r, now.month);
    r.append("-");
    push_two_digits(&mut r, now.day);
    r.append("T");
    push_two_digits(&mut r, now.hour);
    r.append("_");
    push_two_digits(&mut r, now.minute);
    r.append("_");
    push_two_digits(&mut r, now.second);
    proof {
        reveal_strlit("-");
        reveal_strlit("T");
        reveal_strlit("_");
        assert(r@ =~= backup_stamp_spec(*now));
    }
    r
}

} // verus!
