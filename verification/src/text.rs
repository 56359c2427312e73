//! Building the short texts the widget draws: two-digit numbers, month
//! and weekday abbreviations, the date label, the time caption and the
//! UTC-offset label of the title.

use crate::timeline::TimeFormat;
use vstd::prelude::*;

verus! {

/// The decimal digit character of `d`, for `d` in `[0, 10)`.
pub open spec fn digit_char(d: int) -> char {
    if d == 0 {
        '0'
    } else if d == 1 {
        '1'
    } else if d == 2 {
        '2'
    } else if d == 3 {
        '3'
    } else if d == 4 {
        '4'
    } else if d == 5 {
        '5'
    } else if d == 6 {
        '6'
    } else if d == 7 {
        '7'
    } else if d == 8 {
        '8'
    } else {
        '9'
    }
}

/// `n` written as exactly two decimal digits, for `n` in `[0, 100)`.
pub open spec fn two_digits(n: int) -> Seq<char> {
    seq![digit_char(n / 10), digit_char(n % 10)]
}

/// Three-letter abbreviation of month `m`, for `m` in `[1, 12]`.
pub open spec fn month_abbrev(m: int) -> Seq<char> {
    if m == 1 {
        seq!['J', 'a', 'n']
    } else if m == 2 {
        seq!['F', 'e', 'b']
    } else if m == 3 {
        seq!['M', 'a', 'r']
    } else if m == 4 {
        seq!['A', 'p', 'r']
    } else if m == 5 {
        seq!['M', 'a', 'y']
    } else if m == 6 {
        seq!['J', 'u', 'n']
    } else if m == 7 {
        seq!['J', 'u', 'l']
    } else if m == 8 {
        seq!['A', 'u', 'g']
    } else if m == 9 {
        seq!['S', 'e', 'p']
    } else if m == 10 {
        seq!['O', 'c', 't']
    } else if m == 11 {
        seq!['N', 'o', 'v']
    } else {
        seq!['D', 'e', 'c']
    }
}

/// Three-letter abbreviation of weekday index `w`, for `w` in `[0, 7)`
/// with 0 for Thursday.
pub open spec fn weekday_abbrev(w: int) -> Seq<char> {
    if w == 0 {
        seq!['T', 'h', 'u']
    } else if w == 1 {
        seq!['F', 'r', 'i']
    } else if w == 2 {
        seq!['S', 'a', 't']
    } else if w == 3 {
        seq!['S', 'u', 'n']
    } else if w == 4 {
        seq!['M', 'o', 'n']
    } else if w == 5 {
        seq!['T', 'u', 'e']
    } else {
        seq!['W', 'e', 'd']
    }
}

/// The date label of a day of the month and a month: two digits, a
/// space, and the month abbreviation.
pub open spec fn date_label(day: int, month: int) -> Seq<char> {
    two_digits(day) + seq![' '] + month_abbrev(month)
}

/// The time caption of a local clock reading: hour and minute separated
/// by a colon, then the weekday abbreviation; in 12-hour form the hour
/// wraps to `[1, 12]` and an AM/PM tag stands before the weekday.
pub open spec fn caption(format: TimeFormat, h: int, min: int, w: int) -> Seq<char> {
    match format {
        TimeFormat::TwentyFourHour => two_digits(h) + seq![':'] + two_digits(min) + seq![' ']
            + weekday_abbrev(w),
        TimeFormat::TwelveHour => {
            let h12 = if h % 12 == 0 {
                12int
            } else {
                h % 12
            };
            two_digits(h12) + seq![':'] + two_digits(min) + seq![' '] + (if h < 12 {
                seq!['A', 'M']
            } else {
                seq!['P', 'M']
            }) + seq![' '] + weekday_abbrev(w)
        },
    }
}

/// A UTC offset in seconds written as a sign and zero-padded hours and
/// minutes.
pub open spec fn offset_label(off: int) -> Seq<char> {
    let a = if off < 0 {
        -off
    } else {
        off
    };
    (if off < 0 {
        seq!['-']
    } else {
        seq!['+']
    }) + two_digits(a / 3600) + seq![':'] + two_digits((a % 3600) / 60)
}

/// The decimal digit character of a small number.
pub fn digit(d: u32) -> (c: char)
    requires
        d < 10,
    ensures
        c == digit_char(d as int),
{
    match d {
        0 => '0',
        1 => '1',
        2 => '2',
        3 => '3',
        4 => '4',
        5 => '5',
        6 => '6',
        7 => '7',
        8 => '8',
        _ => '9',
    }
}

/// Appends `n` as two decimal digits.
pub fn push_two_digits(v: &mut Vec<char>, n: u32)
    requires
        n < 100,
    ensures
        final(v)@ == old(v)@ + two_digits(n as int),
{
    v.push(digit(n / 10));
    v.push(digit(n % 10));
    proof {
        assert(v@ =~= old(v)@ + two_digits(n as int));
    }
}

/// Appends the month abbreviation.
pub fn push_month_abbrev(v: &mut Vec<char>, m: u32)
    requires
        1 <= m <= 12,
    ensures
        final(v)@ == old(v)@ + month_abbrev(m as int),
{
    let s: &str = match m {
        1 => "Jan",
        2 => "Feb",
        3 => "Mar",
        4 => "Apr",
        5 => "May",
        6 => "Jun",
        7 => "Jul",
        8 => "Aug",
        9 => "Sep",
        10 => "Oct",
        11 => "Nov",
        _ => "Dec",
    };
    push_abbrev_chars(v, s);
    proof {
        reveal_strlit("Jan");
        reveal_strlit("Feb");
        reveal_strlit("Mar");
        reveal_strlit("Apr");
        reveal_strlit("May");
        reveal_strlit("Jun");
        reveal_strlit("Jul");
        reveal_strlit("Aug");
        reveal_strlit("Sep");
        reveal_strlit("Oct");
        reveal_strlit("Nov");
        reveal_strlit("Dec");
        assert(v@ =~= old(v)@ + month_abbrev(m as int));
    }
}

/// Appends the weekday abbreviation, 0 standing for Thursday.
pub fn push_weekday_abbrev(v: &mut Vec<char>, w: u32)
    requires
        w < 7,
    ensures
        final(v)@ == old(v)@ + weekday_abbrev(w as int),
{
    let s: &str = match w {
        0 => "Thu",
        1 => "Fri",
        2 => "Sat",
        3 => "Sun",
        4 => "Mon",
        5 => "Tue",
        _ => "Wed",
    };
    push_abbrev_chars(v, s);
    proof {
        reveal_strlit("Thu");
        reveal_strlit("Fri");
        reveal_strlit("Sat");
        reveal_strlit("Sun");
        reveal_strlit("Mon");
        reveal_strlit("Tue");
        reveal_strlit("Wed");
        assert(v@ =~= old(v)@ + weekday_abbrev(w as int));
    }
}

/// Appends every character of an ASCII string slice.
fn push_abbrev_chars(v: &mut Vec<char>, s: &str)
    ensures
        final(v)@ == old(v)@ + s@,
{
    let n = s.unicode_len();
    let mut i: usize = 0;
    proof {
        assert(v@ =~= old(v)@ + s@.take(0));
    }
    while i < n
        invariant
            n == s@.len(),
            0 <= i <= n,
            v@ == old(v)@ + s@.take(i as int),
        decreases n - i,
    {
        let c = s.get_char(i);
        v.push(c);
        proof {
            assert(v@ =~= old(v)@ + s@.take(i as int + 1));
        }
        i = i + 1;
    }
    proof {
        assert(v@ =~= old(v)@ + s@);
    }
}

/// The date label, always six characters.
pub fn date_label_chars(day: u32, month: u32) -> (r: Vec<char>)
    requires
        day < 100,
        1 <= month <= 12,
    ensures
        r@ == date_label(day as int, month as int),
        r@.len() == 6,
{
    let mut v: Vec<char> = Vec::new();
    push_two_digits(&mut v, day);
    v.push(' ');
    push_month_abbrev(&mut v, month);
    proof {
        assert(v@ =~= date_label(day as int, month as int));
    }
    v
}

/// The time caption: nine characters in 24-hour form, twelve in 12-hour
/// form.
pub fn caption_chars(format: TimeFormat, h: u32, min: u32, w: u32) -> (r: Vec<char>)
    requires
        h < 24,
        min < 60,
        w < 7,
    ensures
        r@ == caption(format, h as int, min as int, w as int),
        r@.len() == (if format is TwentyFourHour {
            9int
        } else {
            12int
        }),
{
    let mut v: Vec<char> = Vec::new();
    match format {
        TimeFormat::TwentyFourHour => {
            push_two_digits(&mut v, h);
            v.push(':');
            push_two_digits(&mut v, min);
            v.push(' ');
            push_weekday_abbrev(&mut v, w);
        },
        TimeFormat::TwelveHour => {
            let h12: u32 = if h % 12 == 0 {
                12
            } else {
                h % 12
            };
            push_two_digits(&mut v, h12);
            v.push(':');
            push_two_digits(&mut v, min);
            v.push(' ');
            if h < 12 {
                v.push('A');
            } else {
                v.push('P');
            }
            v.push('M');
            v.push(' ');
            push_weekday_abbrev(&mut v, w);
        },
    }
    proof {
        assert(v@ =~= caption(format, h as int, min as int, w as int));
    }
    v
}

/// The UTC-offset label, always six characters.
pub fn offset_chars(off: i32) -> (r: Vec<char>)
    requires
        -86400 < off < 86400,
    ensures
        r@ == offset_label(off as int),
        r@.len() == 6,
{
    let mut v: Vec<char> = Vec::new();
    let a: i32 = if off < 0 {
        v.push('-');
        -off
    } else {
        v.push('+');
        off
    };
    let hours: i32 = a.checked_div_euclid(3600).unwrap();
    let rem: i32 = a.checked_rem_euclid(3600).unwrap();
    let minutes: i32 = rem.checked_div_euclid(60).unwrap();
    push_two_digits(&mut v, hours as u32);
    v.push(':');
    push_two_digits(&mut v, minutes as u32);
    proof {
        assert(v@ =~= offset_label(off as int));
    }
    v
}

/// Relies on `String::push`: appends one character to the string.
#[verifier::external_body]
pub fn push_char(s: &mut String, c: char)
    ensures
        final(s)@ == old(s)@.push(c),
{
    s.push(c);
}

/// Appends every character of `v` to the string.
pub fn append_chars(s: &mut String, v: &Vec<char>)
    ensures
        final(s)@ == old(s)@ + v@,
{
    let n = v.len();
    let mut i: usize = 0;
    proof {
        assert(s@ =~= old(s)@ + v@.take(0));
    }
    while i < n
        invariant
            n == v@.len(),
            0 <= i <= n,
            s@ == old(s)@ + v@.take(i as int),
        decreases n - i,
    {
        push_char(s, v[i]);
        proof {
            assert(s@ =~= old(s)@ + v@.take(i as int + 1));
        }
        i = i + 1;
    }
    proof {
        assert(s@ =~= old(s)@ + v@);
    }
}

} // verus!
