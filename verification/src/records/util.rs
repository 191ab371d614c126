//! Field-level parsers shared by the record decoders: times, dates and
//! geographic coordinates, all read from fixed-width ASCII digit spans.
use crate::error::{spec_quoted, quoted_message, IGCError};
use vstd::prelude::*;
use vstd::string::StrSliceExecFns;
use vstd::string::StringExecFns;

verus! {

/// True for the ten ASCII decimal digit characters.
pub open spec fn is_digit_char(c: char) -> bool {
    '0' <= c && c <= '9'
}

/// The numeric value of an ASCII decimal digit character.
pub open spec fn digit_val(c: char) -> int {
    c as int - '0' as int
}

/// True when every character of `s` is an ASCII decimal digit.
pub open spec fn all_digits(s: Seq<char>) -> bool {
    forall|i: int| 0 <= i < s.len() ==> is_digit_char(#[trigger] s[i])
}

/// The value of `s` read as a base-ten numeral, most significant digit first.
pub open spec fn digits_val(s: Seq<char>) -> int
    decreases s.len(),
{
    if s.len() == 0 {
        0
    } else {
        10 * digits_val(s.drop_last()) + digit_val(s.last())
    }
}

/// Ten to the power `n`.
pub open spec fn pow10(n: nat) -> int
    decreases n,
{
    if n == 0 {
        1
    } else {
        10 * pow10((n - 1) as nat)
    }
}

proof fn lemma_pow10_pos(n: nat)
    ensures
        pow10(n) >= 1,
    decreases n,
{
    if n != 0 {
        lemma_pow10_pos((n - 1) as nat);
    }
}

proof fn lemma_pow10_le(a: nat, b: nat)
    requires
        a <= b,
    ensures
        pow10(a) <= pow10(b),
    decreases b,
{
    if a < b {
        lemma_pow10_le(a, (b - 1) as nat);
        lemma_pow10_pos((b - 1) as nat);
    }
}

proof fn lemma_pow10_values()
    ensures
        pow10(2) == 100,
        pow10(3) == 1000,
        pow10(4) == 10000,
        pow10(5) == 100000,
{
    reveal_with_fuel(pow10, 6);
}

/// A digit string's value is non-negative and below ten to its length.
proof fn lemma_digits_val_bound(s: Seq<char>)
    requires
        all_digits(s),
    ensures
        0 <= digits_val(s) < pow10(s.len()),
    decreases s.len(),
{
    if s.len() > 0 {
        let pre = s.drop_last();
        assert forall|i: int| 0 <= i < pre.len() implies is_digit_char(#[trigger] pre[i]) by {
            assert(pre[i] == s[i]);
        }
        lemma_digits_val_bound(pre);
        assert(is_digit_char(s[s.len() - 1]));
    }
}

/// Reads the decimal value of the digit span `s[from..to]`. Returns `None`
/// as soon as any character in the span is not an ASCII decimal digit.
pub fn parse_digits(s: &str, from: usize, to: usize) -> (r: Option<u32>)
    requires
        s.is_ascii(),
        from <= to,
        to <= s@.len(),
        to - from <= 5,
    ensures
        r matches Some(v) ==> all_digits(s@.subrange(from as int, to as int)) && v == digits_val(
            s@.subrange(from as int, to as int),
        ),
        r is None ==> !all_digits(s@.subrange(from as int, to as int)),
{
    let mut i: usize = from;
    let mut acc: u32 = 0;
    while i < to
        invariant
            s.is_ascii(),
            from <= i <= to,
            to <= s@.len(),
            to - from <= 5,
            all_digits(s@.subrange(from as int, i as int)),
            acc == digits_val(s@.subrange(from as int, i as int)),
        decreases to - i,
    {
        let b = s.get_ascii(i);
        proof {
            assert('\0' <= s@[i as int] <= '\u{7f}');
        }
        if b < 48 || b > 57 {
            proof {
                assert(!is_digit_char(s@[i as int]));
                assert(s@.subrange(from as int, to as int)[i - from] == s@[i as int]);
            }
            return None;
        }
        proof {
            let pre = s@.subrange(from as int, i as int);
            let cur = s@.subrange(from as int, (i + 1) as int);
            assert(is_digit_char(s@[i as int]));
            assert(digit_val(s@[i as int]) == b - 48);
            assert(cur.drop_last() =~= pre);
            assert(cur.last() == s@[i as int]);
            assert(digits_val(cur) == 10 * digits_val(pre) + digit_val(s@[i as int]));
            assert forall|j: int| 0 <= j < cur.len() implies is_digit_char(#[trigger] cur[j]) by {
                if j < i - from {
                    assert(cur[j] == pre[j]);
                } else {
                    assert(cur[j] == s@[i as int]);
                }
            }
            lemma_digits_val_bound(pre);
            lemma_pow10_le((i - from) as nat, 4nat);
            lemma_pow10_values();
        }
        acc = acc * 10 + ((b - 48) as u32);
        i = i + 1;
    }
    Some(acc)
}

/// True exactly when every character of the span `s[from..to]` is an ASCII
/// decimal digit.
pub fn all_digits_in(s: &str, from: usize, to: usize) -> (r: bool)
    requires
        s.is_ascii(),
        from <= to,
        to <= s@.len(),
    ensures
        r == all_digits(s@.subrange(from as int, to as int)),
{
    let mut i: usize = from;
    while i < to
        invariant
            s.is_ascii(),
            from <= i <= to,
            to <= s@.len(),
            forall|j: int| from <= j < i ==> is_digit_char(#[trigger] s@[j]),
        decreases to - i,
    {
        let b = s.get_ascii(i);
        proof {
            assert('\0' <= s@[i as int] <= '\u{7f}');
        }
        if b < 48 || b > 57 {
            proof {
                assert(!is_digit_char(s@[i as int]));
                assert(s@.subrange(from as int, to as int)[i - from] == s@[i as int]);
            }
            return false;
        }
        proof {
            assert(is_digit_char(s@[i as int]));
        }
        i = i + 1;
    }
    proof {
        assert forall|j: int| 0 <= j < to - from implies is_digit_char(
            #[trigger] s@.subrange(from as int, to as int)[j],
        ) by {
            assert(s@.subrange(from as int, to as int)[j] == s@[from + j]);
        }
    }
    true
}

/// A time of day with hour, minute and second fields.
#[derive(Debug, Clone, Copy, PartialEq, Eq, Structural)]
pub struct Time {
    pub h: u8,
    pub m: u8,
    pub s: u8,
}

/// True when a six-character field is a well-formed `HHMMSS` time: all
/// digits, hour below twenty-four, minute and second below sixty.
pub open spec fn valid_time_str(s: Seq<char>) -> bool {
    &&& s.len() == 6
    &&& all_digits(s.subrange(0, 2))
    &&& all_digits(s.subrange(2, 4))
    &&& all_digits(s.subrange(4, 6))
    &&& digits_val(s.subrange(0, 2)) < 24
    &&& digits_val(s.subrange(2, 4)) < 60
    &&& digits_val(s.subrange(4, 6)) < 60
}

/// The time denoted by a well-formed `HHMMSS` field.
pub open spec fn spec_time(s: Seq<char>) -> Time {
    Time {
        h: digits_val(s.subrange(0, 2)) as u8,
        m: digits_val(s.subrange(2, 4)) as u8,
        s: digits_val(s.subrange(4, 6)) as u8,
    }
}

/// The message carried by a time parse error.
pub open spec fn time_err_msg(s: Seq<char>) -> Seq<char> {
    spec_quoted(s, "' is not a valid time"@)
}

impl Time {
    /// True when the fields are in range for a time of day.
    pub open spec fn wf(self) -> bool {
        self.h < 24 && self.m < 60 && self.s < 60
    }

    /// Parses a six-character `HHMMSS` field. Rejects any field that is not
    /// exactly six ASCII decimal digits or whose hour, minute or second is
    /// out of range.
    pub fn parse(field: &str) -> (r: Result<Time, IGCError>)
        requires
            field.is_ascii(),
        ensures
            r is Ok <==> valid_time_str(field@),
            r matches Ok(t) ==> t == spec_time(field@) && t.wf(),
            r matches Err(e) ==> e matches IGCError::TimeInitError(m) && m@ == time_err_msg(
                field@,
            ),
    {
        if field.unicode_len() == 6 {
            let oh = parse_digits(field, 0, 2);
            let om = parse_digits(field, 2, 4);
            let os = parse_digits(field, 4, 6);
            if let (Some(h), Some(m), Some(s)) = (oh, om, os) {
                if h < 24 && m < 60 && s < 60 {
                    return Ok(Time { h: h as u8, m: m as u8, s: s as u8 });
                }
            }
        }
        Err(IGCError::TimeInitError(quoted_message(field, "' is not a valid time")))
    }

    /// Builds a time from its components, rejecting out-of-range values.
    pub fn from_hms(h: u8, m: u8, s: u8) -> (r: Result<Time, IGCError>)
        ensures
            r is Ok <==> h < 24 && m < 60 && s < 60,
            r matches Ok(t) ==> t == (Time { h, m, s }),
            r matches Err(e) ==> e matches IGCError::TimeInitError(msg) && msg@
                == "time components are out of range"@,
    {
        if h < 24 && m < 60 && s < 60 {
            Ok(Time { h, m, s })
        } else {
            Err(IGCError::TimeInitError(String::from_str("time components are out of range")))
        }
    }
}

/// A calendar date with day, month and two-digit year fields.
#[derive(Debug, Clone, Copy, PartialEq, Eq, Structural)]
pub struct Date {
    pub d: u8,
    pub m: u8,
    pub y: u8,
}

/// True when a six-character field is a well-formed `DDMMYY` date field:
/// exactly six ASCII decimal digits.
pub open spec fn valid_date_str(s: Seq<char>) -> bool {
    &&& s.len() == 6
    &&& all_digits(s.subrange(0, 2))
    &&& all_digits(s.subrange(2, 4))
    &&& all_digits(s.subrange(4, 6))
}

/// The date denoted by a well-formed `DDMMYY` field.
pub open spec fn spec_date(s: Seq<char>) -> Date {
    Date {
        d: digits_val(s.subrange(0, 2)) as u8,
        m: digits_val(s.subrange(2, 4)) as u8,
        y: digits_val(s.subrange(4, 6)) as u8,
    }
}

/// The message carried by a date parse error.
pub open spec fn date_err_msg(s: Seq<char>) -> Seq<char> {
    spec_quoted(s, "' is not a valid date"@)
}

impl Date {
    /// Parses a six-character `DDMMYY` field, e.g. `070323` into day seven,
    /// month three, year twenty-three. Rejects any field that is not exactly
    /// six ASCII decimal digits.
    pub fn parse(field: &str) -> (r: Result<Date, IGCError>)
        requires
            field.is_ascii(),
        ensures
            r is Ok <==> valid_date_str(field@),
            r matches Ok(d) ==> d == spec_date(field@) && d.d < 100 && d.m < 100 && d.y < 100,
            r matches Err(e) ==> e matches IGCError::DateInitError(m) && m@ == date_err_msg(
                field@,
            ),
    {
        if field.unicode_len() == 6 {
            let od = parse_digits(field, 0, 2);
            let om = parse_digits(field, 2, 4);
            let oy = parse_digits(field, 4, 6);
            if let (Some(d), Some(m), Some(y)) = (od, om, oy) {
                proof {
                    lemma_digits_val_bound(field@.subrange(0, 2));
                    lemma_digits_val_bound(field@.subrange(2, 4));
                    lemma_digits_val_bound(field@.subrange(4, 6));
                    lemma_pow10_values();
                }
                return Ok(Date { d: d as u8, m: m as u8, y: y as u8 });
            }
        }
        Err(IGCError::DateInitError(quoted_message(field, "' is not a valid date")))
    }
}

/// A latitude: whole degrees, minutes in thousandths of a minute, and the
/// hemisphere (true for north). Thousandths of minutes are the wire format's
/// own resolution, so the value is held exactly, with no rounding.
#[derive(Debug, Clone, Copy, PartialEq, Eq, Structural)]
pub struct Latitude {
    pub degrees: u8,
    pub minute_thousandths: u32,
    pub is_north: bool,
}

/// A longitude: whole degrees, minutes in thousandths of a minute, and the
/// hemisphere (true for east).
#[derive(Debug, Clone, Copy, PartialEq, Eq, Structural)]
pub struct Longitude {
    pub degrees: u16,
    pub minute_thousandths: u32,
    pub is_east: bool,
}

/// A geographic position: latitude and longitude.
#[derive(Debug, Clone, Copy, PartialEq, Eq, Structural)]
pub struct Coordinate {
    pub latitude: Latitude,
    pub longitude: Longitude,
}

/// True when a seventeen-character field is a well-formed coordinate block:
/// `DDMMmmm` then `N` or `S` for the latitude, `DDDMMmmm` then `E` or `W`
/// for the longitude.
pub open spec fn valid_coord_str(s: Seq<char>) -> bool {
    &&& s.len() == 17
    &&& all_digits(s.subrange(0, 2))
    &&& all_digits(s.subrange(2, 7))
    &&& (s[7] == 'N' || s[7] == 'S')
    &&& all_digits(s.subrange(8, 11))
    &&& all_digits(s.subrange(11, 16))
    &&& (s[16] == 'E' || s[16] == 'W')
}

/// The coordinate denoted by a well-formed seventeen-character block.
pub open spec fn spec_coordinate(s: Seq<char>) -> Coordinate {
    Coordinate {
        latitude: Latitude {
            degrees: digits_val(s.subrange(0, 2)) as u8,
            minute_thousandths: digits_val(s.subrange(2, 7)) as u32,
            is_north: s[7] == 'N',
        },
        longitude: Longitude {
            degrees: digits_val(s.subrange(8, 11)) as u16,
            minute_thousandths: digits_val(s.subrange(11, 16)) as u32,
            is_east: s[16] == 'E',
        },
    }
}

/// The message carried by a coordinate parse error.
pub open spec fn coord_err_msg(s: Seq<char>) -> Seq<char> {
    spec_quoted(s, "' is not a valid coordinate"@)
}

impl Coordinate {
    /// True when the numeric fields are within the wire format's widths.
    pub open spec fn wf(self) -> bool {
        &&& self.latitude.degrees < 100
        &&& self.latitude.minute_thousandths < 100000
        &&& self.longitude.degrees < 1000
        &&& self.longitude.minute_thousandths < 100000
    }

    /// Parses a seventeen-character latitude+longitude block. Rejects any
    /// field of another length, with a non-digit in a digit position, or
    /// with anything but a hemisphere letter after either coordinate.
    pub fn parse(field: &str) -> (r: Result<Coordinate, IGCError>)
        requires
            field.is_ascii(),
        ensures
            r is Ok <==> valid_coord_str(field@),
            r matches Ok(c) ==> c == spec_coordinate(field@) && c.wf(),
            r matches Err(e) ==> e matches IGCError::CoordinateInitError(m) && m@
                == coord_err_msg(field@),
    {
        if field.unicode_len() == 17 {
            let lat_deg = parse_digits(field, 0, 2);
            let lat_min = parse_digits(field, 2, 7);
            let lat_hemi = field.get_char(7);
            let lon_deg = parse_digits(field, 8, 11);
            let lon_min = parse_digits(field, 11, 16);
            let lon_hemi = field.get_char(16);
            if let (Some(lad), Some(lam), Some(lod), Some(lom)) = (lat_deg, lat_min, lon_deg, lon_min) {
                if (lat_hemi == 'N' || lat_hemi == 'S') && (lon_hemi == 'E' || lon_hemi == 'W') {
                    proof {
                        lemma_digits_val_bound(field@.subrange(0, 2));
                        lemma_digits_val_bound(field@.subrange(2, 7));
                        lemma_digits_val_bound(field@.subrange(8, 11));
                        lemma_digits_val_bound(field@.subrange(11, 16));
                        lemma_pow10_values();
                    }
                    return Ok(Coordinate {
                        latitude: Latitude {
                            degrees: lad as u8,
                            minute_thousandths: lam,
                            is_north: lat_hemi == 'N',
                        },
                        longitude: Longitude {
                            degrees: lod as u16,
                            minute_thousandths: lom,
                            is_east: lon_hemi == 'E',
                        },
                    });
                }
            }
        }
        Err(IGCError::CoordinateInitError(quoted_message(field, "' is not a valid coordinate")))
    }
}

} // verus!
