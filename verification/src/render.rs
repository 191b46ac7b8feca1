//! Textual rendering of dates, times and offsets, specified character by
//! character.

use vstd::prelude::*;
use crate::naive_date::{day_of, month_of, DateView, NaiveDate};
use crate::naive_time::{NaiveTime, TimeView};

verus! {

/// The decimal digit character for `d` (0 to 9).
pub open spec fn digit_char(d: int) -> char {
    if d == 0 {
        '0'
    } else if d == 1 {
        '1'
    } else if d == 2 {
        '2'
    } else if d == 3 {
        '3'
    } else if d == 4 {
        '4'
    } else if d == 5 {
        '5'
    } else if d == 6 {
        '6'
    } else if d == 7 {
        '7'
    } else if d == 8 {
        '8'
    } else {
        '9'
    }
}

/// The decimal digits of a non-negative `n`, most significant first.
pub open spec fn dec_digits(n: int) -> Seq<char>
    decreases n,
{
    if n < 10 {
        seq![digit_char(n)]
    } else {
        dec_digits(n / 10).push(digit_char(n % 10))
    }
}

/// `k` copies of `c` (none for `k <= 0`).
pub open spec fn char_repeat(c: char, k: int) -> Seq<char> {
    Seq::new(
        (if k > 0 {
            k
        } else {
            0
        }) as nat,
        |i: int| c,
    )
}

/// `s` left-padded with zeros to width `w`.
pub open spec fn zero_pad(s: Seq<char>, w: int) -> Seq<char> {
    char_repeat('0', w - s.len()) + s
}

/// `n` in decimal, zero-padded to width `w`.
pub open spec fn dec_text(n: int, w: int) -> Seq<char> {
    zero_pad(dec_digits(n), w)
}

/// A year: four digits, zero-padded, a minus sign in front of negative
/// years.
pub open spec fn year_text(y: int) -> Seq<char> {
    if y < 0 {
        "-"@ + dec_text(-y, 4)
    } else {
        dec_text(y, 4)
    }
}

/// A calendar date as `year-month-day`, the month and day two digits each.
pub open spec fn date_text(v: DateView) -> Seq<char> {
    year_text(v.year) + "-"@ + dec_text(month_of(v.year, v.ordinal), 2) + "-"@ + dec_text(
        day_of(v.year, v.ordinal),
        2,
    )
}

/// A time of day as `hour:minute:second`, two digits each, followed by a
/// point and the nine-digit nanosecond fraction when it is not zero.
pub open spec fn time_text(t: TimeView) -> Seq<char> {
    let base = dec_text(t.secs / 3600, 2) + ":"@ + dec_text((t.secs / 60) % 60, 2) + ":"@
        + dec_text(t.secs % 60, 2);
    if t.frac == 0 {
        base
    } else {
        base + "."@ + dec_text(t.frac, 9)
    }
}

/// A fixed skew of `secs` seconds as sign, whole hours (two digits or more),
/// a colon, and two minute digits; seconds below a minute do not show.
pub open spec fn offset_text(secs: int) -> Seq<char> {
    let mag = if secs < 0 {
        -secs
    } else {
        secs
    };
    (if secs < 0 {
        "-"@
    } else {
        "+"@
    }) + dec_text(mag / 3600, 2) + ":"@ + dec_text((mag % 3600) / 60, 2)
}

/// The one-character string of digit `d`.
fn digit_str(d: u64) -> (s: &'static str)
    requires
        d < 10,
    ensures
        s@ == seq![digit_char(d as int)],
{
    proof {
        reveal_strlit("0");
        reveal_strlit("1");
        reveal_strlit("2");
        reveal_strlit("3");
        reveal_strlit("4");
        reveal_strlit("5");
        reveal_strlit("6");
        reveal_strlit("7");
        reveal_strlit("8");
        reveal_strlit("9");
    }
    let s: &'static str = if d == 0 {
        "0"
    } else if d == 1 {
        "1"
    } else if d == 2 {
        "2"
    } else if d == 3 {
        "3"
    } else if d == 4 {
        "4"
    } else if d == 5 {
        "5"
    } else if d == 6 {
        "6"
    } else if d == 7 {
        "7"
    } else if d == 8 {
        "8"
    } else {
        "9"
    };
    proof {
        assert(s@ =~= seq![digit_char(d as int)]);
    }
    s
}

/// Appends the decimal digits of `n`.
pub fn push_digits(n: u64, out: &mut String)
    ensures
        final(out)@ == old(out)@ + dec_digits(n as int),
    decreases n,
{
    if n >= 10 {
        push_digits(n / 10, out);
    }
    out.append(digit_str(n % 10));
    proof {
        assert(out@ =~= old(out)@ + dec_digits(n as int));
    }
}

/// The count of decimal digits of `n`.
fn dec_len(n: u64) -> (c: u64)
    ensures
        c == dec_digits(n as int).len(),
        1 <= c <= 20,
{
    proof {
        reveal_with_fuel(pow10, 21);
        lemma_dec_len_le(n as int, 20);
    }
    let mut m: u64 = n;
    let mut c: u64 = 1;
    while m >= 10
        invariant
            dec_digits(n as int).len() == dec_digits(m as int).len() + c - 1,
            dec_digits(n as int).len() <= 20,
            dec_digits(m as int).len() >= 1,
            1 <= c <= 20,
        decreases m,
    {
        proof {
            lemma_dec_digits_len(m as int);
            lemma_dec_digits_len(m as int / 10);
        }
        m = m / 10;
        c = c + 1;
    }
    proof {
        lemma_dec_digits_len(m as int);
    }
    c
}

/// Digit counts unfold one step at a time and are never empty.
proof fn lemma_dec_digits_len(n: int)
    requires
        0 <= n,
    ensures
        dec_digits(n).len() == if n < 10 {
            1int
        } else {
            dec_digits(n / 10).len() + 1int
        },
        dec_digits(n).len() >= 1,
    decreases n,
{
    if n >= 10 {
        lemma_dec_digits_len(n / 10);
    }
}

/// Powers of ten.
spec fn pow10(k: nat) -> int
    decreases k,
{
    if k == 0 {
        1
    } else {
        10 * pow10((k - 1) as nat)
    }
}

/// A number below the `k`-th power of ten has at most `k` digits.
proof fn lemma_dec_len_le(n: int, k: nat)
    requires
        1 <= k,
        0 <= n < pow10(k),
    ensures
        dec_digits(n).len() <= k,
    decreases k,
{
    if n >= 10 {
        vstd::arithmetic::div_mod::lemma_multiply_divide_lt(n, 10, pow10((k - 1) as nat));
        lemma_dec_len_le(n / 10, (k - 1) as nat);
    }
}

/// Appends `n` in decimal, zero-padded to `width`.
pub fn push_dec_text(n: u64, width: u64, out: &mut String)
    requires
        width <= 32,
    ensures
        final(out)@ == old(out)@ + dec_text(n as int, width as int),
{
    let len = dec_len(n);
    let target: u64 = if width > len {
        width - len
    } else {
        0
    };
    let mut j: u64 = 0;
    while j < target
        invariant
            j <= target,
            out@ == old(out)@ + char_repeat('0', j as int),
        decreases target - j,
    {
        out.append("0");
        proof {
            reveal_strlit("0");
            assert(char_repeat('0', j as int) + "0"@ =~= char_repeat('0', j as int + 1));
        }
        j = j + 1;
    }
    push_digits(n, out);
    proof {
        assert(out@ =~= old(out)@ + dec_text(n as int, width as int));
    }
}

/// Appends the date as `year-month-day`.
pub fn push_date_text(d: &NaiveDate, out: &mut String)
    requires
        d.wf(),
    ensures
        final(out)@ == old(out)@ + date_text(d@),
{
    let y = d.year();
    if y < 0 {
        out.append("-");
        push_dec_text((-(y as i64)) as u64, 4, out);
    } else {
        push_dec_text(y as u64, 4, out);
    }
    out.append("-");
    push_dec_text(d.month() as u64, 2, out);
    out.append("-");
    push_dec_text(d.day() as u64, 2, out);
    proof {
        assert(out@ =~= old(out)@ + date_text(d@));
    }
}

/// Appends the time as `hour:minute:second`, with its fraction when it is
/// not zero.
pub fn push_time_text(t: &NaiveTime, out: &mut String)
    requires
        t.wf(),
    ensures
        final(out)@ == old(out)@ + time_text(t@),
{
    push_dec_text(t.hour() as u64, 2, out);
    out.append(":");
    push_dec_text(t.minute() as u64, 2, out);
    out.append(":");
    push_dec_text(t.second() as u64, 2, out);
    let frac = t.nanosecond();
    if frac != 0 {
        out.append(".");
        push_dec_text(frac as u64, 9, out);
    }
    proof {
        assert(out@ =~= old(out)@ + time_text(t@));
    }
}

/// Appends a fixed skew of `secs` seconds as sign, hours and minutes.
pub fn push_offset_text(secs: i32, out: &mut String)
    ensures
        final(out)@ == old(out)@ + offset_text(secs as int),
{
    let mag: u32 = if secs < 0 {
        out.append("-");
        ((-(secs as i64)) as u64) as u32
    } else {
        out.append("+");
        secs as u32
    };
    push_dec_text((mag / 3600) as u64, 2, out);
    out.append(":");
    push_dec_text(((mag % 3600) / 60) as u64, 2, out);
    proof {
        assert(out@ =~= old(out)@ + offset_text(secs as int));
    }
}

} // verus!
