//! The command line of the break timer: three durations written `hh:mm`.
//!
//! Durations are whole numbers of seconds here: the `hh:mm` format and the
//! one-second tick of the timer never produce fractions of a second.
use crate::text::{decimal, digits_value, is_digit, lemma_decimal_digits, lemma_digits_value_prefix};
use vstd::prelude::*;
use vstd::string::*;

verus! {

/// The parsed command line. Every duration is a number of seconds.
#[derive(Clone, Copy, Debug, PartialEq, Eq, Structural)]
pub struct Cli {
    /// Break frequency: time between the end of one break and the next.
    pub freq: u64,
    /// Break length.
    pub len: u64,
    /// Idle reset: after this much idle time the countdown starts over.
    pub reset: Option<u64>,
}

/// Why a duration argument was refused.
#[derive(Clone, Copy, Debug, PartialEq, Eq, Structural)]
pub enum DurationError {
    /// The hours or the minutes are not a number from 0 to 255.
    InvalidNumber,
    /// Both the hours and the minutes are zero.
    ZeroDuration,
    /// The argument holds no `:`.
    InvalidFormat,
}

/// Why a command line was refused after its arguments were parsed.
#[derive(Clone, Copy, Debug, PartialEq, Eq, Structural)]
pub enum ConfigError {
    /// The idle reset is not shorter than the break frequency.
    ResetNotBelowFrequency,
}

/// The number of characters before the first `:` of `s` (all of `s` if it has none).
pub open spec fn field_end(s: Seq<char>) -> nat
    decreases s.len(),
{
    if s.len() == 0 {
        0
    } else if s[0] == ':' {
        0
    } else {
        1 + field_end(s.drop_first())
    }
}

/// The first field of `s` when split at `:`.
pub open spec fn first_field(s: Seq<char>) -> Seq<char> {
    s.take(field_end(s) as int)
}

/// What follows the first `:` of `s`, if it holds one.
pub open spec fn after_first_colon(s: Seq<char>) -> Option<Seq<char>> {
    if field_end(s) < s.len() {
        Some(s.skip(field_end(s) + 1int))
    } else {
        None
    }
}

/// The digits of an unsigned number: the text without its optional leading `+`.
pub open spec fn unsigned_body(s: Seq<char>) -> Seq<char> {
    if s.len() > 0 && s[0] == '+' {
        s.drop_first()
    } else {
        s
    }
}

/// The `u8` that `s` denotes: an optional `+` followed by one or more ASCII
/// digits whose value is at most 255. `None` for any other text.
pub open spec fn spec_parse_u8(s: Seq<char>) -> Option<u8> {
    let body = unsigned_body(s);
    if body.len() > 0 && (forall|i: int| 0 <= i < body.len() ==> is_digit(#[trigger] body[i]))
        && digits_value(body) <= 255 {
        Some(digits_value(body) as u8)
    } else {
        None
    }
}

/// The number of seconds in `hrs` hours and `mins` minutes.
pub open spec fn hours_minutes_secs(hrs: u8, mins: u8) -> nat {
    (hrs as nat) * 3600 + (mins as nat) * 60
}

/// What `parse_duration` gives for the argument `s`, which must have the
/// form `hh:mm`: exactly one `:`, the hours before it and the minutes after it.
/// Text with no `:`, or with more than one, does not have that form.
pub open spec fn spec_parse_duration(s: Seq<char>) -> Result<u64, DurationError> {
    match after_first_colon(s) {
        None => Err(DurationError::InvalidFormat),
        Some(rest) => if after_first_colon(rest) is Some {
            Err(DurationError::InvalidFormat)
        } else {
            match (spec_parse_u8(first_field(s)), spec_parse_u8(rest)) {
            (Some(hrs), Some(mins)) => if hours_minutes_secs(hrs, mins) == 0 {
                Err(DurationError::ZeroDuration)
            } else {
                Ok(hours_minutes_secs(hrs, mins) as u64)
            },
            _ => Err(DurationError::InvalidNumber),
            }
        },
    }
}

/// Whether a command line is accepted: an idle reset, when given, must be
/// shorter than the break frequency.
pub open spec fn spec_valid(cli: Cli) -> bool {
    match cli.reset {
        Some(reset) => cli.freq > reset,
        None => true,
    }
}

/// `field_end` is the index of the first `:` (or the length).
proof fn lemma_field_end(s: Seq<char>, i: int)
    requires
        0 <= i <= s.len(),
        forall|j: int| 0 <= j < i ==> s[j] != ':',
        i == s.len() || s[i] == ':',
    ensures
        field_end(s) == i,
    decreases i,
{
    if i > 0 {
        lemma_field_end(s.drop_first(), i - 1);
    }
}

/// The message that a number outside 0..=255 is answered with.
pub fn time_parse_err_msg() -> (msg: String)
    ensures
        msg@ == "Number must be between 0 and 255"@,
{
    String::from_str("Number must be between 0 and 255")
}

impl DurationError {
    /// The message shown for this error.
    pub fn message(&self) -> (msg: String)
        ensures
            msg@ == match *self {
                DurationError::InvalidNumber => "Number must be between 0 and 255"@,
                DurationError::ZeroDuration => "Duration must be at least 0"@,
                DurationError::InvalidFormat => "Please use the required format for the duration"@,
            },
    {
        match self {
            DurationError::InvalidNumber => time_parse_err_msg(),
            DurationError::ZeroDuration => String::from_str("Duration must be at least 0"),
            DurationError::InvalidFormat => String::from_str(
                "Please use the required format for the duration",
            ),
        }
    }
}

impl ConfigError {
    /// The message shown for this error.
    pub fn message(&self) -> (msg: String)
        ensures
            msg@ == "Idle reset time cannot be greater than or equals to the break time"@,
    {
        String::from_str("Idle reset time cannot be greater than or equals to the break time")
    }
}

/// Index of the first `:` at or after `from` in `s`, or the length of `s`.
fn find_colon(s: &str, from: usize) -> (end: usize)
    requires
        from <= s@.len(),
    ensures
        end == from + field_end(s@.skip(from as int)),
        end <= s@.len(),
{
    let n = s.unicode_len();
    let mut i = from;
    while i < n && s.get_char(i) != ':'
        invariant
            n == s@.len(),
            from <= i <= n,
            forall|j: int| from <= j < i ==> s@[j] != ':',
        decreases n - i,
    {
        i = i + 1;
    }
    proof {
        lemma_field_end(s@.skip(from as int), i - from);
    }
    i
}

/// Parses `s@[start..end]` as a `u8` (an optional `+` and decimal digits).
fn parse_u8_field(s: &str, start: usize, end: usize) -> (r: Option<u8>)
    requires
        start <= end <= s@.len(),
    ensures
        r == spec_parse_u8(s@.subrange(start as int, end as int)),
{
    let ghost field = s@.subrange(start as int, end as int);
    let ghost body = unsigned_body(field);
    if start == end {
        return None;
    }
    let mut pos = start;
    if s.get_char(start) == '+' {
        pos = start + 1;
    }
    assert(body =~= s@.subrange(pos as int, end as int));
    if pos == end {
        return None;
    }
    let mut value: u32 = 0;
    let mut i = pos;
    while i < end
        invariant
            start <= pos <= i <= end <= s@.len(),
            body =~= s@.subrange(pos as int, end as int),
            field == s@.subrange(start as int, end as int),
            body == unsigned_body(field),
            forall|j: int| 0 <= j < i - pos ==> is_digit(#[trigger] body[j]),
            value == digits_value(body.take(i - pos)),
            value <= 255,
        decreases end - i,
    {
        let c = s.get_char(i);
        if c < '0' || c > '9' {
            assert(!is_digit(body[i - pos]));
            return None;
        }
        let d = (c as u32) - ('0' as u32);
        assert(body.take(i - pos + 1).drop_last() =~= body.take(i - pos));
        let next = value * 10 + d;
        if next > 255 {
            proof {
                if forall|j: int| 0 <= j < body.len() ==> is_digit(#[trigger] body[j]) {
                    lemma_digits_value_prefix(body, i - pos + 1);
                }
            }
            return None;
        }
        value = next;
        i = i + 1;
    }
    assert(body.take(end - pos) =~= body);
    Some(value as u8)
}

/// Parses a duration written `hh:mm` (hours and minutes, each from 0 to 255)
/// into a number of seconds.
pub fn parse_duration(arg: &str) -> (r: Result<u64, DurationError>)
    ensures
        r == spec_parse_duration(arg@),
{
    let n = arg.unicode_len();
    let colon = find_colon(arg, 0);
    assert(arg@.skip(0) =~= arg@);
    if colon == n {
        return Err(DurationError::InvalidFormat);
    }
    let mins_end = find_colon(arg, colon + 1);
    let ghost rest = arg@.skip(colon + 1);
    assert(first_field(arg@) =~= arg@.subrange(0, colon as int));
    if mins_end != n {
        return Err(DurationError::InvalidFormat);
    }
    assert(rest =~= arg@.subrange(colon + 1, mins_end as int));
    let hrs = match parse_u8_field(arg, 0, colon) {
        Some(h) => h,
        None => return Err(DurationError::InvalidNumber),
    };
    let mins = match parse_u8_field(arg, colon + 1, mins_end) {
        Some(m) => m,
        None => return Err(DurationError::InvalidNumber),
    };
    let time: u64 = (hrs as u64) * 60 * 60 + (mins as u64) * 60;
    if time == 0 {
        return Err(DurationError::ZeroDuration);
    }
    Ok(time)
}

/// Checks the parsed command line: an idle reset that is not shorter than
/// the break frequency is refused.
pub fn validate(cli: &Cli) -> (r: Result<(), ConfigError>)
    ensures
        r is Ok <==> spec_valid(*cli),
        r is Err ==> r == Err::<(), ConfigError>(ConfigError::ResetNotBelowFrequency),
{
    match cli.reset {
        Some(reset) => if cli.freq <= reset {
            Err(ConfigError::ResetNotBelowFrequency)
        } else {
            Ok(())
        },
        None => Ok(()),
    }
}


/// `field_end` of a colon-free text followed by a `:` is the length of that text.
proof fn lemma_field_end_before_colon(a: Seq<char>, b: Seq<char>)
    requires
        forall|j: int| 0 <= j < a.len() ==> a[j] != ':',
    ensures
        field_end(a + seq![':'] + b) == a.len(),
        field_end(a) == a.len(),
{
    let s = a + seq![':'] + b;
    assert forall|j: int| 0 <= j < a.len() implies s[j] != ':' by {
        assert(s[j] == a[j]);
    }
    lemma_field_end(s, a.len() as int);
    lemma_field_end(a, a.len() as int);
}

/// The decimal rendering of a byte parses back as that byte.
proof fn lemma_parse_u8_decimal(v: u8)
    ensures
        spec_parse_u8(decimal(v as nat)) == Some(v),
        forall|j: int| 0 <= j < decimal(v as nat).len() ==> decimal(v as nat)[j] != ':',
{
    lemma_decimal_digits(v as nat);
    let d = decimal(v as nat);
    assert(is_digit(d[0]));
    assert(unsigned_body(d) == d);
    assert forall|j: int| 0 <= j < d.len() implies d[j] != ':' by {
        assert(is_digit(d[j]));
    }
}

/// Any hours and minutes from 0 to 255, not both zero, written in decimal
/// as `hh:mm`, parse to that many seconds.
pub proof fn law_parse_duration_reads_hours_minutes(hrs: u8, mins: u8)
    requires
        hrs > 0 || mins > 0,
    ensures
        spec_parse_duration(decimal(hrs as nat) + seq![':'] + decimal(mins as nat)) == Ok::<
            u64,
            DurationError,
        >(hours_minutes_secs(hrs, mins) as u64),
{
    let h = decimal(hrs as nat);
    let m = decimal(mins as nat);
    let s = h + seq![':'] + m;
    lemma_parse_u8_decimal(hrs);
    lemma_parse_u8_decimal(mins);
    lemma_field_end_before_colon(h, m);
    lemma_field_end_before_colon(m, Seq::<char>::empty());
    assert(first_field(s) =~= h);
    assert(s.skip(h.len() + 1int) =~= m);
    assert(first_field(m) =~= m);
}

/// Every accepted duration is a positive whole number of minutes, of at
/// most 255 hours and 255 minutes.
pub proof fn law_parsed_durations_are_whole_minutes(s: Seq<char>)
    ensures
        spec_parse_duration(s) matches Ok(secs) ==> (secs > 0 && secs % 60 == 0 && secs <= 255
            * 3600 + 255 * 60),
{
}

/// `field_end` is the position of the first `:`, and no `:` comes before it.
proof fn lemma_field_end_is_first_colon(s: Seq<char>)
    ensures
        field_end(s) <= s.len(),
        forall|j: int| 0 <= j < field_end(s) ==> s[j] != ':',
        field_end(s) < s.len() ==> s[field_end(s) as int] == ':',
    decreases s.len(),
{
    if s.len() > 0 && s[0] != ':' {
        lemma_field_end_is_first_colon(s.drop_first());
        assert forall|j: int| 0 <= j < field_end(s) implies s[j] != ':' by {
            if j > 0 {
                assert(s[j] == s.drop_first()[j - 1]);
            }
        }
    }
}

/// Every accepted argument has the form `hh:mm`: it holds exactly one `:`.
pub proof fn law_accepted_durations_hold_one_colon(s: Seq<char>)
    ensures
        spec_parse_duration(s) is Ok ==> (exists|i: int| 0 <= i < s.len() && s[i] == ':') && (
        forall|i: int, j: int|
            0 <= i < s.len() && 0 <= j < s.len() && s[i] == ':' && s[j] == ':' ==> i == j),
{
    if spec_parse_duration(s) is Ok {
        let e = field_end(s) as int;
        lemma_field_end_is_first_colon(s);
        let rest = s.skip(e + 1);
        lemma_field_end_is_first_colon(rest);
        assert(field_end(rest) == rest.len());
        assert forall|i: int, j: int|
            0 <= i < s.len() && 0 <= j < s.len() && s[i] == ':' && s[j] == ':' implies i == j by {
            if i != e {
                assert(i > e);
                assert(rest[i - e - 1] == s[i]);
            }
            if j != e {
                assert(j > e);
                assert(rest[j - e - 1] == s[j]);
            }
        }
    }
}


/// A field made of decimal digits (leading zeros included) whose value is at
/// most 255 reads as that value, with or without a leading `+`.
pub proof fn law_u8_field_reads_its_digits(d: Seq<char>)
    requires
        d.len() > 0,
        forall|i: int| 0 <= i < d.len() ==> is_digit(#[trigger] d[i]),
        digits_value(d) <= 255,
    ensures
        spec_parse_u8(d) == Some(digits_value(d) as u8),
        spec_parse_u8(seq!['+'] + d) == Some(digits_value(d) as u8),
{
    assert(is_digit(d[0]));
    assert(unsigned_body(d) == d);
    let p = seq!['+'] + d;
    assert(p.drop_first() =~= d);
    assert(unsigned_body(p) == d);
}

/// A field is only ever read as a number when it is decimal digits, with an
/// optional leading `+`, whose value is that number.
pub proof fn law_u8_field_is_digits(s: Seq<char>)
    ensures
        spec_parse_u8(s) matches Some(v) ==> exists|d: Seq<char>|
            (s == d || s == seq!['+'] + d) && d.len() > 0 && (forall|i: int|
                0 <= i < d.len() ==> is_digit(#[trigger] d[i])) && digits_value(d) == v,
{
    if spec_parse_u8(s) is Some {
        let d = unsigned_body(s);
        if s.len() > 0 && s[0] == '+' {
            assert(s =~= seq!['+'] + d);
        }
        assert(s == d || s == seq!['+'] + d);
    }
}

/// Two fields of decimal digits (leading zeros included), each worth at most
/// 255 and not both zero, joined by one `:`, parse to that many hours and
/// minutes in seconds.
pub proof fn law_parse_duration_reads_digit_fields(a: Seq<char>, b: Seq<char>)
    requires
        a.len() > 0,
        b.len() > 0,
        forall|i: int| 0 <= i < a.len() ==> is_digit(#[trigger] a[i]),
        forall|i: int| 0 <= i < b.len() ==> is_digit(#[trigger] b[i]),
        digits_value(a) <= 255,
        digits_value(b) <= 255,
        digits_value(a) > 0 || digits_value(b) > 0,
    ensures
        spec_parse_duration(a + seq![':'] + b) == Ok::<u64, DurationError>(
            (digits_value(a) * 3600 + digits_value(b) * 60) as u64,
        ),
{
    let s = a + seq![':'] + b;
    assert forall|j: int| 0 <= j < a.len() implies a[j] != ':' by {
        assert(is_digit(a[j]));
    }
    assert forall|j: int| 0 <= j < b.len() implies b[j] != ':' by {
        assert(is_digit(b[j]));
    }
    lemma_field_end_before_colon(a, b);
    lemma_field_end_before_colon(b, Seq::<char>::empty());
    assert(first_field(s) =~= a);
    assert(s.skip(a.len() + 1int) =~= b);
    law_u8_field_reads_its_digits(a);
    law_u8_field_reads_its_digits(b);
}

/// An argument made of two colon-free fields joined by one `:` reads each
/// field as a byte; it is refused as a number error when either field is not
/// one, and as zero when both are zero.
pub proof fn law_parse_duration_splits_at_the_colon(a: Seq<char>, b: Seq<char>)
    requires
        forall|i: int| 0 <= i < a.len() ==> a[i] != ':',
        forall|i: int| 0 <= i < b.len() ==> b[i] != ':',
    ensures
        (spec_parse_u8(a) is None || spec_parse_u8(b) is None) ==> spec_parse_duration(
            a + seq![':'] + b,
        ) == Err::<u64, DurationError>(DurationError::InvalidNumber),
        spec_parse_u8(a) == Some(0u8) && spec_parse_u8(b) == Some(0u8) ==> spec_parse_duration(
            a + seq![':'] + b,
        ) == Err::<u64, DurationError>(DurationError::ZeroDuration),
{
    let s = a + seq![':'] + b;
    lemma_field_end_before_colon(a, b);
    lemma_field_end_before_colon(b, Seq::<char>::empty());
    assert(first_field(s) =~= a);
    assert(s.skip(a.len() + 1int) =~= b);
}

/// The command line is accepted exactly when there is no idle reset or it is
/// a strictly smaller number of seconds than the frequency.
pub proof fn law_valid_exactly_when_reset_below_frequency(freq: u64, len: u64, reset: Option<u64>)
    ensures
        spec_valid(Cli { freq, len, reset: None }),
        reset matches Some(r) ==> (spec_valid(Cli { freq, len, reset }) <==> r < freq),
{
}


/// Text without a `:`, or with two or more, is refused as not having the
/// form `hh:mm`, whatever its fields hold.
pub proof fn law_format_needs_exactly_one_colon(s: Seq<char>)
    ensures
        (forall|i: int| 0 <= i < s.len() ==> s[i] != ':') ==> spec_parse_duration(s) == Err::<
            u64,
            DurationError,
        >(DurationError::InvalidFormat),
        (exists|i: int, j: int| 0 <= i < j < s.len() && s[i] == ':' && s[j] == ':')
            ==> spec_parse_duration(s) == Err::<u64, DurationError>(DurationError::InvalidFormat),
{
    lemma_field_end_is_first_colon(s);
    let e = field_end(s) as int;
    if exists|i: int, j: int| 0 <= i < j < s.len() && s[i] == ':' && s[j] == ':' {
        let (i, j) = choose|i: int, j: int| 0 <= i < j < s.len() && s[i] == ':' && s[j] == ':';
        assert(e <= i);
        assert(e < s.len());
        let rest = s.skip(e + 1);
        lemma_field_end_is_first_colon(rest);
        assert(rest[j - e - 1] == ':');
        assert(field_end(rest) < rest.len());
    }
}

} // verus!
