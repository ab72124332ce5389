use vstd::prelude::*;

verus! {

/// `c` is an ASCII decimal digit.
pub open spec fn is_digit(c: char) -> bool {
    48 <= c as u32 <= 57
}

/// The numeric value of an ASCII digit.
pub open spec fn digit(c: char) -> int {
    c as u32 - 48
}

/// The month number of an ISO `YYYY-MM-DD` date text.
pub open spec fn iso_month(s: Seq<char>) -> int {
    10 * digit(s[5]) + digit(s[6])
}

/// The day number of an ISO `YYYY-MM-DD` date text.
pub open spec fn iso_day(s: Seq<char>) -> int {
    10 * digit(s[8]) + digit(s[9])
}

/// The text has the ISO calendar-date shape `YYYY-MM-DD`, with a plausible
/// month and day.
pub open spec fn is_iso_date(s: Seq<char>) -> bool {
    &&& s.len() == 10
    &&& s[4] == '-' && s[7] == '-'
    &&& is_digit(s[0]) && is_digit(s[1]) && is_digit(s[2]) && is_digit(s[3])
    &&& is_digit(s[5]) && is_digit(s[6]) && is_digit(s[8]) && is_digit(s[9])
    &&& 1 <= iso_month(s) <= 12
    &&& 1 <= iso_day(s) <= 31
}

/// The English month abbreviation the RSS date convention uses.
pub open spec fn month_name(m: int) -> Seq<char> {
    if m == 1 {
        "Jan"@
    } else if m == 2 {
        "Feb"@
    } else if m == 3 {
        "Mar"@
    } else if m == 4 {
        "Apr"@
    } else if m == 5 {
        "May"@
    } else if m == 6 {
        "Jun"@
    } else if m == 7 {
        "Jul"@
    } else if m == 8 {
        "Aug"@
    } else if m == 9 {
        "Sep"@
    } else if m == 10 {
        "Oct"@
    } else if m == 11 {
        "Nov"@
    } else {
        "Dec"@
    }
}

/// An ISO date re-emitted per the RSS date convention (RFC 822 allows the
/// weekday to be omitted), at midnight UTC.
pub open spec fn rfc822_of(s: Seq<char>) -> Seq<char> {
    s.subrange(8, 10) + " "@ + month_name(iso_month(s)) + " "@ + s.subrange(0, 4)
        + " 00:00:00 GMT"@
}

/// What a date text becomes in the feed: an ISO `YYYY-MM-DD` date is parsed
/// and re-emitted per the RSS date convention; any other text passes through
/// verbatim — it may already follow the convention, and guessing at other
/// shapes would corrupt them.
pub open spec fn normalized_date(s: Seq<char>) -> Seq<char> {
    if is_iso_date(s) {
        rfc822_of(s)
    } else {
        s
    }
}

/// `normalized_date`, over an optional text.
pub open spec fn opt_normalized(o: Option<Seq<char>>) -> Option<Seq<char>> {
    match o {
        Some(s) => Some(normalized_date(s)),
        None => None,
    }
}

fn digit_check(c: char) -> (r: bool)
    ensures
        r == is_digit(c),
{
    let u = c as u32;
    48 <= u && u <= 57
}

fn iso_check(s: &str) -> (r: bool)
    ensures
        r == is_iso_date(s@),
{
    let n = s.unicode_len();
    if n != 10 {
        return false;
    }
    if s.get_char(4) != '-' || s.get_char(7) != '-' {
        return false;
    }
    if !(digit_check(s.get_char(0)) && digit_check(s.get_char(1)) && digit_check(s.get_char(2))
        && digit_check(s.get_char(3))) {
        return false;
    }
    if !(digit_check(s.get_char(5)) && digit_check(s.get_char(6)) && digit_check(s.get_char(8))
        && digit_check(s.get_char(9))) {
        return false;
    }
    let m: u32 = (s.get_char(5) as u32 - 48) * 10 + (s.get_char(6) as u32 - 48);
    let d: u32 = (s.get_char(8) as u32 - 48) * 10 + (s.get_char(9) as u32 - 48);
    1 <= m && m <= 12 && 1 <= d && d <= 31
}

fn month_abbrev(m: u32) -> (r: &'static str)
    requires
        1 <= m <= 12,
    ensures
        r@ == month_name(m as int),
{
    if m == 1 {
        "Jan"
    } else if m == 2 {
        "Feb"
    } else if m == 3 {
        "Mar"
    } else if m == 4 {
        "Apr"
    } else if m == 5 {
        "May"
    } else if m == 6 {
        "Jun"
    } else if m == 7 {
        "Jul"
    } else if m == 8 {
        "Aug"
    } else if m == 9 {
        "Sep"
    } else if m == 10 {
        "Oct"
    } else if m == 11 {
        "Nov"
    } else {
        "Dec"
    }
}

/// Normalize a date text for the feed, following `normalized_date` exactly.
pub fn normalize_date(s: &str) -> (r: String)
    ensures
        r@ == normalized_date(s@),
{
    if !iso_check(s) {
        return s.to_owned();
    }
    let m: u32 = (s.get_char(5) as u32 - 48) * 10 + (s.get_char(6) as u32 - 48);
    let mut r = s.substring_char(8, 10).to_owned();
    r.append(" ");
    r.append(month_abbrev(m));
    r.append(" ");
    r.append(s.substring_char(0, 4));
    r.append(" 00:00:00 GMT");
    r
}

} // verus!
