//! Verified text building: decimal numerals and the monitor description
//! line, stated character by character against spec-level sequences.

use vstd::prelude::*;
use vstd::string::{StrSliceExecFns, StringExecFns};

use crate::monitor::MonitorInfo;

verus! {

/// The numeral character for one decimal digit.
pub open spec fn spec_digit_char(d: int) -> char {
    if d == 0 {
        '0'
    } else if d == 1 {
        '1'
    } else if d == 2 {
        '2'
    } else if d == 3 {
        '3'
    } else if d == 4 {
        '4'
    } else if d == 5 {
        '5'
    } else if d == 6 {
        '6'
    } else if d == 7 {
        '7'
    } else if d == 8 {
        '8'
    } else {
        '9'
    }
}

/// The decimal numeral of a non-negative integer, most significant digit
/// first, without leading zeros (a single zero for 0).
pub open spec fn spec_decimal(n: int) -> Seq<char>
    decreases n,
{
    if n < 10 {
        seq![spec_digit_char(n)]
    } else {
        spec_decimal(n / 10) + seq![spec_digit_char(n % 10)]
    }
}

/// The decimal numeral of an integer, with a leading minus sign when
/// negative.
pub open spec fn spec_decimal_signed(n: int) -> Seq<char> {
    if n < 0 {
        seq!['-'] + spec_decimal(-n)
    } else {
        spec_decimal(n)
    }
}

/// The one-character string for a decimal digit.
fn digit_str(d: u64) -> (r: &'static str)
    requires
        d < 10,
    ensures
        r@ == seq![spec_digit_char(d as int)],
{
    let r: &'static str = match d {
        0 => "0",
        1 => "1",
        2 => "2",
        3 => "3",
        4 => "4",
        5 => "5",
        6 => "6",
        7 => "7",
        8 => "8",
        _ => "9",
    };
    proof {
        reveal_strlit("0");
        reveal_strlit("1");
        reveal_strlit("2");
        reveal_strlit("3");
        reveal_strlit("4");
        reveal_strlit("5");
        reveal_strlit("6");
        reveal_strlit("7");
        reveal_strlit("8");
        reveal_strlit("9");
        assert(r@ =~= seq![spec_digit_char(d as int)]);
    }
    r
}

/// The decimal numeral of `n`.
pub fn u64_to_string(n: u64) -> (r: String)
    ensures
        r@ == spec_decimal(n as int),
    decreases n,
{
    if n < 10 {
        String::from_str(digit_str(n))
    } else {
        let mut s = u64_to_string(n / 10);
        s.append(digit_str(n % 10));
        proof {
            assert(s@ =~= spec_decimal(n as int));
        }
        s
    }
}

/// The decimal numeral of `n`, signed.
pub fn i64_to_string(n: i64) -> (r: String)
    requires
        n > i64::MIN,
    ensures
        r@ == spec_decimal_signed(n as int),
{
    if n < 0 {
        let mut s = String::from_str("-");
        proof {
            reveal_strlit("-");
            assert(s@ =~= seq!['-']);
        }
        let m: u64 = (-n) as u64;
        s.append(u64_to_string(m).as_str());
        proof {
            assert(s@ =~= spec_decimal_signed(n as int));
        }
        s
    } else {
        u64_to_string(n as u64)
    }
}

/// `s` with every trailing NUL character removed.  Monitor device names
/// come NUL-padded from enumeration.
pub open spec fn spec_trim_trailing_nul(s: Seq<char>) -> Seq<char>
    decreases s.len(),
{
    if s.len() > 0 && s.last() == '\0' {
        spec_trim_trailing_nul(s.drop_last())
    } else {
        s
    }
}

/// Remove trailing NUL characters.
pub fn trim_trailing_nul(s: &str) -> (r: String)
    ensures
        r@ == spec_trim_trailing_nul(s@),
{
    let mut end = s.unicode_len();
    proof {
        assert(s@.take(end as int) =~= s@);
    }
    while end > 0 && s.get_char(end - 1) == '\0'
        invariant
            end as int <= s@.len(),
            spec_trim_trailing_nul(s@) == spec_trim_trailing_nul(s@.take(end as int)),
        decreases end,
    {
        proof {
            assert(s@.take(end as int).last() == s@[end - 1]);
            assert(s@.take(end as int).drop_last() =~= s@.take(end - 1));
        }
        end = end - 1;
    }
    proof {
        if end > 0 {
            assert(s@.take(end as int).last() == s@[end - 1]);
        }
        assert(spec_trim_trailing_nul(s@.take(end as int)) == s@.take(end as int));
    }
    let r = String::from_str(s.substring_char(0, end));
    proof {
        assert(s@.subrange(0, end as int) =~= s@.take(end as int));
    }
    r
}

/// The description line for one monitor:
/// `Monitor <index+1> (<name>) <width>x<height> @ (<left>,<top>)`,
/// with the 1-based index, the NUL-trimmed device name, and the pixel
/// size of the full rectangle.
pub open spec fn spec_format_monitor(info: MonitorInfo, index: int) -> Seq<char> {
    "Monitor "@ + spec_decimal(index + 1) + " ("@ + spec_trim_trailing_nul(info.name@) + ") "@
        + spec_decimal_signed(info.full_rect.spec_width()) + "x"@ + spec_decimal_signed(
        info.full_rect.spec_height(),
    ) + " @ ("@ + spec_decimal_signed(info.full_rect.left as int) + ","@ + spec_decimal_signed(
        info.full_rect.top as int,
    ) + ")"@
}

/// Format monitor info for display.
pub fn format_monitor(info: &MonitorInfo, index: usize) -> (r: String)
    requires
        index < usize::MAX,
    ensures
        r@ == spec_format_monitor(*info, index as int),
{
    let w: i64 = info.full_rect.right as i64 - info.full_rect.left as i64;
    let h: i64 = info.full_rect.bottom as i64 - info.full_rect.top as i64;
    let mut s = String::from_str("Monitor ");
    s.append(u64_to_string((index + 1) as u64).as_str());
    s.append(" (");
    s.append(trim_trailing_nul(info.name.as_str()).as_str());
    s.append(") ");
    s.append(i64_to_string(w).as_str());
    s.append("x");
    s.append(i64_to_string(h).as_str());
    s.append(" @ (");
    s.append(i64_to_string(info.full_rect.left as i64).as_str());
    s.append(",");
    s.append(i64_to_string(info.full_rect.top as i64).as_str());
    s.append(")");
    proof {
        assert(s@ =~= spec_format_monitor(*info, index as int));
    }
    s
}

} // verus!
