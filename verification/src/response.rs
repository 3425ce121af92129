//! Classification of the gateway's HTTP outcomes: the success payload, the
//! closed error set, and the retry-after hint with its two header formats.

use vstd::prelude::*;
use vstd::string::StrSliceExecFns;

verus! {

/// The transient failure reasons a 200 body can still signal; any other
/// error code in a body is tolerated as no error.
#[derive(Clone, Copy, Debug, PartialEq, Eq, Structural)]
pub enum ErrorReason {
    Unavailable,
    InternalServerError,
}

/// A calendar timestamp from an HTTP-date header value.
#[derive(Clone, Copy, Debug, PartialEq, Eq, Structural)]
pub struct HttpDate {
    pub year: u16,
    pub month: u8,
    pub day: u8,
    pub hour: u8,
    pub minute: u8,
    pub second: u8,
}

/// A retry hint from a `Retry-After` header: either a delay in seconds or
/// an HTTP-date.
#[derive(Clone, Copy, Debug, PartialEq, Eq, Structural)]
pub enum RetryAfter {
    DelaySeconds(u64),
    DateTime(HttpDate),
}

/// The parsed 200 body: the gateway-assigned message identifier and the
/// optional error reason.
#[derive(Clone, Debug, PartialEq, Eq)]
pub struct FcmResponse {
    pub message_id: Option<String>,
    pub error: Option<ErrorReason>,
}

/// The closed error set of `send`.
#[derive(Clone, Debug, PartialEq, Eq)]
pub enum FcmError {
    /// Bad or expired credential; not retryable without re-authentication.
    Unauthorized,
    /// Malformed request body or unrecognized status; the caller must fix
    /// the message.
    InvalidMessage(String),
    /// Remote transient failure, optionally annotated with a retry hint.
    ServerError(Option<RetryAfter>),
    /// Transport-level failure before any status line was received.
    NetworkError,
}

// ---- Decimal delay parsing ----

/// Whether `c` is a decimal digit.
pub open spec fn is_digit(c: char) -> bool {
    48 <= c as u32 <= 57
}

/// The value of the decimal digit `c`.
pub open spec fn digit_val(c: char) -> int {
    c as u32 - 48
}

/// Whether every character of `s` is a decimal digit.
pub open spec fn all_digits(s: Seq<char>) -> bool {
    forall|i: int| 0 <= i < s.len() ==> is_digit(s[i])
}

/// The value of the decimal numeral `s`.
pub open spec fn dec_val(s: Seq<char>) -> int
    decreases s.len(),
{
    if s.len() == 0 {
        0
    } else {
        dec_val(s.drop_last()) * 10 + digit_val(s.last())
    }
}

/// A delta-seconds header value: one or more digits, within `u64` range.
pub open spec fn parse_delta(s: Seq<char>) -> Option<u64> {
    if s.len() > 0 && all_digits(s) && dec_val(s) <= u64::MAX {
        Option::Some(dec_val(s) as u64)
    } else {
        Option::None
    }
}

/// The value of a numeral is never negative.
proof fn lemma_dec_nonneg(s: Seq<char>)
    requires
        all_digits(s),
    ensures
        dec_val(s) >= 0,
    decreases s.len(),
{
    if s.len() > 0 {
        assert(all_digits(s.drop_last()));
        lemma_dec_nonneg(s.drop_last());
    }
}

/// A numeral is worth at least any of its prefixes.
proof fn lemma_dec_prefix(s: Seq<char>, j: int)
    requires
        all_digits(s),
        0 <= j <= s.len(),
    ensures
        dec_val(s) >= dec_val(s.take(j)),
    decreases s.len() - j,
{
    if j < s.len() {
        lemma_dec_prefix(s, j + 1);
        assert(s.take(j + 1).drop_last() =~= s.take(j));
        assert(s.take(j + 1).last() == s[j]);
        assert(all_digits(s.take(j)));
        lemma_dec_nonneg(s.take(j));
        assert(dec_val(s.take(j + 1)) == dec_val(s.take(j)) * 10 + digit_val(s[j]));
    } else {
        assert(s.take(j) =~= s);
    }
}

/// Parses a delta-seconds value: `Some` exactly on non-empty all-digit
/// strings whose value fits in a `u64`.
pub fn parse_delta_seconds(s: &str) -> (r: Option<u64>)
    ensures
        r == parse_delta(s@),
{
    let n: usize = s.unicode_len();
    if n == 0 {
        return Option::None;
    }
    let mut acc: u64 = 0;
    let mut i: usize = 0;
    proof {
        assert(s@.take(0) =~= Seq::<char>::empty());
    }
    while i < n
        invariant
            0 < n == s@.len(),
            i <= n,
            all_digits(s@.take(i as int)),
            acc == dec_val(s@.take(i as int)),
        decreases n - i,
    {
        let c = s.get_char(i);
        let u: u32 = c as u32;
        proof {
            assert(s@.take(i as int + 1).drop_last() =~= s@.take(i as int));
        }
        if u < 48 || u > 57 {
            return Option::None;
        }
        let d: u64 = (u - 48) as u64;
        let m = match acc.checked_mul(10) {
            Option::Some(m) => m,
            Option::None => {
                proof {
                    overflow_means_none(s@, i as int);
                }
                return Option::None;
            },
        };
        let v = match m.checked_add(d) {
            Option::Some(v) => v,
            Option::None => {
                proof {
                    overflow_means_none(s@, i as int);
                }
                return Option::None;
            },
        };
        acc = v;
        i = i + 1;
    }
    proof {
        assert(s@.take(n as int) =~= s@);
    }
    Option::Some(acc)
}

/// When the accumulated prefix overflows a `u64`, the whole numeral is out
/// of range, so the parse yields nothing.
proof fn overflow_means_none(s: Seq<char>, i: int)
    requires
        0 <= i < s.len(),
        all_digits(s.take(i)),
        is_digit(s[i]),
        dec_val(s.take(i)) * 10 + digit_val(s[i]) > u64::MAX,
    ensures
        parse_delta(s) is None,
{
    if all_digits(s) {
        assert(s.take(i + 1).drop_last() =~= s.take(i));
        assert(s.take(i + 1).last() == s[i]);
        assert(dec_val(s.take(i + 1)) == dec_val(s.take(i)) * 10 + digit_val(s[i]));
        lemma_dec_prefix(s, i + 1);
    }
}

// ---- HTTP-date parsing ----

/// Whether the three characters spell a weekday name.
pub open spec fn weekday_ok(c0: char, c1: char, c2: char) -> bool {
    (c0 == 'M' && c1 == 'o' && c2 == 'n') || (c0 == 'T' && c1 == 'u' && c2 == 'e')
        || (c0 == 'W' && c1 == 'e' && c2 == 'd') || (c0 == 'T' && c1 == 'h' && c2 == 'u')
        || (c0 == 'F' && c1 == 'r' && c2 == 'i') || (c0 == 'S' && c1 == 'a' && c2 == 't')
        || (c0 == 'S' && c1 == 'u' && c2 == 'n')
}

/// The month number spelled by the three characters, if any.
pub open spec fn month_num(c0: char, c1: char, c2: char) -> Option<int> {
    if c0 == 'J' && c1 == 'a' && c2 == 'n' { Option::Some(1) }
    else if c0 == 'F' && c1 == 'e' && c2 == 'b' { Option::Some(2) }
    else if c0 == 'M' && c1 == 'a' && c2 == 'r' { Option::Some(3) }
    else if c0 == 'A' && c1 == 'p' && c2 == 'r' { Option::Some(4) }
    else if c0 == 'M' && c1 == 'a' && c2 == 'y' { Option::Some(5) }
    else if c0 == 'J' && c1 == 'u' && c2 == 'n' { Option::Some(6) }
    else if c0 == 'J' && c1 == 'u' && c2 == 'l' { Option::Some(7) }
    else if c0 == 'A' && c1 == 'u' && c2 == 'g' { Option::Some(8) }
    else if c0 == 'S' && c1 == 'e' && c2 == 'p' { Option::Some(9) }
    else if c0 == 'O' && c1 == 'c' && c2 == 't' { Option::Some(10) }
    else if c0 == 'N' && c1 == 'o' && c2 == 'v' { Option::Some(11) }
    else if c0 == 'D' && c1 == 'e' && c2 == 'c' { Option::Some(12) }
    else { Option::None }
}

/// The value of the two-digit group at position `i`.
pub open spec fn val2(s: Seq<char>, i: int) -> int {
    digit_val(s[i]) * 10 + digit_val(s[i + 1])
}

/// The value of the four-digit group at position `i`.
pub open spec fn val4(s: Seq<char>, i: int) -> int {
    digit_val(s[i]) * 1000 + digit_val(s[i + 1]) * 100 + digit_val(s[i + 2]) * 10
        + digit_val(s[i + 3])
}

/// Whether the characters at positions `i` to `j` (exclusive) are digits.
pub open spec fn digits_at(s: Seq<char>, i: int, j: int) -> bool {
    forall|x: int| i <= x < j ==> #[trigger] is_digit(s[x])
}

/// An HTTP-date header value in the fixed-length preferred format, such as
/// `Wed, 21 Oct 2024 07:28:00 GMT`.  The weekday token must spell a
/// weekday but is not cross-checked against the calendar; the day of month
/// must lie in 1 to 31, the time fields in their clock ranges.
pub open spec fn parse_http_date(s: Seq<char>) -> Option<HttpDate> {
    if s.len() == 29 && weekday_ok(s[0], s[1], s[2]) && s[3] == ',' && s[4] == ' '
        && digits_at(s, 5, 7) && s[7] == ' '
        && month_num(s[8], s[9], s[10]) is Some && s[11] == ' '
        && digits_at(s, 12, 16) && s[16] == ' '
        && digits_at(s, 17, 19) && s[19] == ':'
        && digits_at(s, 20, 22) && s[22] == ':'
        && digits_at(s, 23, 25) && s[25] == ' '
        && s[26] == 'G' && s[27] == 'M' && s[28] == 'T'
        && 1 <= val2(s, 5) <= 31 && val2(s, 17) <= 23 && val2(s, 20) <= 59
        && val2(s, 23) <= 59
    {
        Option::Some(HttpDate {
            year: val4(s, 12) as u16,
            month: month_num(s[8], s[9], s[10])->Some_0 as u8,
            day: val2(s, 5) as u8,
            hour: val2(s, 17) as u8,
            minute: val2(s, 20) as u8,
            second: val2(s, 23) as u8,
        })
    } else {
        Option::None
    }
}

/// The month number spelled by the three characters, if any.
fn month_of(c0: char, c1: char, c2: char) -> (r: Option<u8>)
    ensures
        match r {
            Option::Some(m) => month_num(c0, c1, c2) == Option::Some(m as int),
            Option::None => month_num(c0, c1, c2) is None,
        },
{
    if c0 == 'J' && c1 == 'a' && c2 == 'n' { Option::Some(1) }
    else if c0 == 'F' && c1 == 'e' && c2 == 'b' { Option::Some(2) }
    else if c0 == 'M' && c1 == 'a' && c2 == 'r' { Option::Some(3) }
    else if c0 == 'A' && c1 == 'p' && c2 == 'r' { Option::Some(4) }
    else if c0 == 'M' && c1 == 'a' && c2 == 'y' { Option::Some(5) }
    else if c0 == 'J' && c1 == 'u' && c2 == 'n' { Option::Some(6) }
    else if c0 == 'J' && c1 == 'u' && c2 == 'l' { Option::Some(7) }
    else if c0 == 'A' && c1 == 'u' && c2 == 'g' { Option::Some(8) }
    else if c0 == 'S' && c1 == 'e' && c2 == 'p' { Option::Some(9) }
    else if c0 == 'O' && c1 == 'c' && c2 == 't' { Option::Some(10) }
    else if c0 == 'N' && c1 == 'o' && c2 == 'v' { Option::Some(11) }
    else if c0 == 'D' && c1 == 'e' && c2 == 'c' { Option::Some(12) }
    else { Option::None }
}

/// Whether the three characters spell a weekday name.
fn weekday_of(c0: char, c1: char, c2: char) -> (r: bool)
    ensures
        r == weekday_ok(c0, c1, c2),
{
    (c0 == 'M' && c1 == 'o' && c2 == 'n') || (c0 == 'T' && c1 == 'u' && c2 == 'e')
        || (c0 == 'W' && c1 == 'e' && c2 == 'd') || (c0 == 'T' && c1 == 'h' && c2 == 'u')
        || (c0 == 'F' && c1 == 'r' && c2 == 'i') || (c0 == 'S' && c1 == 'a' && c2 == 't')
        || (c0 == 'S' && c1 == 'u' && c2 == 'n')
}

/// The decimal value of the digit `c`, or nothing.
fn digit_of(c: char) -> (r: Option<u32>)
    ensures
        match r {
            Option::Some(d) => is_digit(c) && d == digit_val(c),
            Option::None => !is_digit(c),
        },
{
    let u: u32 = c as u32;
    if 48 <= u && u <= 57 {
        Option::Some(u - 48)
    } else {
        Option::None
    }
}

/// Parses an HTTP-date header value; anything malformed yields nothing.
pub fn parse_date(s: &str) -> (r: Option<HttpDate>)
    ensures
        r == parse_http_date(s@),
{
    let n: usize = s.unicode_len();
    if n != 29 {
        return Option::None;
    }
    let mut cs: Vec<char> = Vec::new();
    let mut i: usize = 0;
    while i < n
        invariant
            i <= n,
            n == s@.len(),
            cs@ == s@.take(i as int),
        decreases n - i,
    {
        cs.push(s.get_char(i));
        proof {
            assert(cs@ =~= s@.take(i as int + 1));
        }
        i = i + 1;
    }
    proof {
        assert(s@.take(29) =~= s@);
    }
    if !weekday_of(cs[0], cs[1], cs[2]) {
        return Option::None;
    }
    if !(cs[3] == ',' && cs[4] == ' ' && cs[7] == ' ' && cs[11] == ' ' && cs[16] == ' '
        && cs[19] == ':' && cs[22] == ':' && cs[25] == ' ' && cs[26] == 'G' && cs[27] == 'M'
        && cs[28] == 'T') {
        return Option::None;
    }
    let month = match month_of(cs[8], cs[9], cs[10]) {
        Option::Some(m) => m,
        Option::None => {
            return Option::None;
        },
    };
    let day = match two_digits(cs[5], cs[6]) {
        Option::Some(v) => v,
        Option::None => {
            return Option::None;
        },
    };
    let hour = match two_digits(cs[17], cs[18]) {
        Option::Some(v) => v,
        Option::None => {
            return Option::None;
        },
    };
    let minute = match two_digits(cs[20], cs[21]) {
        Option::Some(v) => v,
        Option::None => {
            return Option::None;
        },
    };
    let second = match two_digits(cs[23], cs[24]) {
        Option::Some(v) => v,
        Option::None => {
            return Option::None;
        },
    };
    let y0 = match digit_of(cs[12]) {
        Option::Some(d) => d,
        Option::None => {
            return Option::None;
        },
    };
    let y1 = match digit_of(cs[13]) {
        Option::Some(d) => d,
        Option::None => {
            return Option::None;
        },
    };
    let y2 = match digit_of(cs[14]) {
        Option::Some(d) => d,
        Option::None => {
            return Option::None;
        },
    };
    let y3 = match digit_of(cs[15]) {
        Option::Some(d) => d,
        Option::None => {
            return Option::None;
        },
    };
    if !(1 <= day && day <= 31 && hour <= 23 && minute <= 59 && second <= 59) {
        return Option::None;
    }
    let year: u32 = y0 * 1000 + y1 * 100 + y2 * 10 + y3;
    Option::Some(HttpDate {
        year: year as u16,
        month: month,
        day: day as u8,
        hour: hour as u8,
        minute: minute as u8,
        second: second as u8,
    })
}

/// The value of a two-digit group, or nothing when either is no digit.
fn two_digits(c0: char, c1: char) -> (r: Option<u32>)
    ensures
        match r {
            Option::Some(v) => is_digit(c0) && is_digit(c1)
                && v == digit_val(c0) * 10 + digit_val(c1),
            Option::None => !(is_digit(c0) && is_digit(c1)),
        },
{
    match (digit_of(c0), digit_of(c1)) {
        (Option::Some(d0), Option::Some(d1)) => Option::Some(d0 * 10 + d1),
        _ => Option::None,
    }
}

// ---- The retry hint ----

/// The retry hint carried by a `Retry-After` header value: a delay in
/// seconds when the value is a numeral, a timestamp when it is an
/// HTTP-date, nothing when it is malformed.
pub open spec fn retry_after_of(s: Seq<char>) -> Option<RetryAfter> {
    if parse_delta(s) is Some {
        Option::Some(RetryAfter::DelaySeconds(parse_delta(s)->Some_0))
    } else if parse_http_date(s) is Some {
        Option::Some(RetryAfter::DateTime(parse_http_date(s)->Some_0))
    } else {
        Option::None
    }
}

/// The retry hint of an optional header value: absence gives no hint.
pub open spec fn retry_hint(h: Option<Seq<char>>) -> Option<RetryAfter> {
    match h {
        Option::Some(s) => retry_after_of(s),
        Option::None => Option::None,
    }
}

impl RetryAfter {
    /// Parses a `Retry-After` header value.
    pub fn parse(s: &str) -> (r: Option<RetryAfter>)
        ensures
            r == retry_after_of(s@),
    {
        match parse_delta_seconds(s) {
            Option::Some(n) => Option::Some(RetryAfter::DelaySeconds(n)),
            Option::None => match parse_date(s) {
                Option::Some(d) => Option::Some(RetryAfter::DateTime(d)),
                Option::None => Option::None,
            },
        }
    }
}

// ---- The error reason of a 200 body ----

/// The error reason spelled by a body's error code: only the two transient
/// reasons count, any other code is tolerated as no error.
pub open spec fn error_reason_of(s: Seq<char>) -> Option<ErrorReason> {
    if s == "Unavailable"@ {
        Option::Some(ErrorReason::Unavailable)
    } else if s == "InternalServerError"@ {
        Option::Some(ErrorReason::InternalServerError)
    } else {
        Option::None
    }
}

/// Whether two strings spell the same characters.
fn str_eq(a: &str, b: &str) -> (r: bool)
    ensures
        r == (a@ == b@),
{
    let oa = a.to_owned();
    let ob = b.to_owned();
    oa == ob
}

impl ErrorReason {
    /// The error reason spelled by a body's error code.
    pub fn parse(code: &str) -> (r: Option<ErrorReason>)
        ensures
            r == error_reason_of(code@),
    {
        if str_eq(code, "Unavailable") {
            Option::Some(ErrorReason::Unavailable)
        } else if str_eq(code, "InternalServerError") {
            Option::Some(ErrorReason::InternalServerError)
        } else {
            Option::None
        }
    }
}

// ---- Status classification ----

/// Whether a 200 body's error reason makes the call a transient server
/// failure.
pub open spec fn transient(err: Option<ErrorReason>) -> bool {
    err == Option::Some(ErrorReason::Unavailable)
        || err == Option::Some(ErrorReason::InternalServerError)
}

/// Classifies one HTTP outcome, strictly by status code: 200 succeeds
/// unless the body signals a transient failure, 401 is an authentication
/// failure, 400 a rejected message, any other server error carries the
/// retry hint, and everything else is unrecognized.
pub fn classify(
    status: u16,
    message_id: Option<String>,
    error: Option<ErrorReason>,
    retry_after: Option<RetryAfter>,
) -> (r: Result<FcmResponse, FcmError>)
    ensures
        status == 200 && !transient(error) ==> (r matches Ok(resp)
            && resp.message_id.deep_view() == message_id.deep_view() && resp.error == error),
        status == 200 && transient(error) ==> r == Err::<FcmResponse, FcmError>(
            FcmError::ServerError(retry_after),
        ),
        status == 401 ==> r == Err::<FcmResponse, FcmError>(FcmError::Unauthorized),
        status == 400 ==> (r matches Err(FcmError::InvalidMessage(m)) && m@ == "Bad Request"@),
        status != 200 && status != 401 && status != 400 && 500 <= status < 600 ==> r == Err::<
            FcmResponse,
            FcmError,
        >(FcmError::ServerError(retry_after)),
        status != 200 && status != 401 && status != 400 && !(500 <= status < 600) ==> (r matches
            Err(FcmError::InvalidMessage(m)) && m@ == "Unknown Error"@),
{
    if status == 200 {
        match error {
            Option::Some(ErrorReason::Unavailable) => Err(FcmError::ServerError(retry_after)),
            Option::Some(ErrorReason::InternalServerError) => Err(
                FcmError::ServerError(retry_after),
            ),
            Option::None => Ok(FcmResponse { message_id, error }),
        }
    } else if status == 401 {
        Err(FcmError::Unauthorized)
    } else if status == 400 {
        Err(FcmError::InvalidMessage("Bad Request".to_owned()))
    } else if 500 <= status && status < 600 {
        Err(FcmError::ServerError(retry_after))
    } else {
        Err(FcmError::InvalidMessage("Unknown Error".to_owned()))
    }
}

// ---- Reading the 200 body ----

/// The identifier the gateway's JSON body assigns to the message: its
/// `name` string field, when the body parses and has one.
pub uninterp spec fn body_message_id(s: Seq<char>) -> Option<Seq<char>>;

/// The error code of the gateway's JSON body: its `error` string field,
/// when the body parses and has one.
pub uninterp spec fn body_error_of(s: Seq<char>) -> Option<Seq<char>>;

/// Relies on `serde_json::from_str`, `serde_json::Value::get` and
/// `serde_json::Value::as_str`: reads the body as a JSON object and hands
/// out its `name` and `error` string fields as plain values.  The result
/// depends on the body text alone.
#[verifier::external_body]
fn parse_body_fields(body: &str) -> (r: (Option<String>, Option<String>))
    ensures
        r.0.deep_view() == body_message_id(body@),
        r.1.deep_view() == body_error_of(body@),
{
    let v: Option<serde_json::Value> = serde_json::from_str(body).ok();
    let name = v.as_ref().and_then(|o| o.get("name")).and_then(|f| f.as_str()).map(
        |s| s.to_owned(),
    );
    let error = v.as_ref().and_then(|o| o.get("error")).and_then(|f| f.as_str()).map(
        |s| s.to_owned(),
    );
    (name, error)
}

/// The error reason a body signals.
pub open spec fn body_error_reason(s: Seq<char>) -> Option<ErrorReason> {
    match body_error_of(s) {
        Option::Some(code) => error_reason_of(code),
        Option::None => Option::None,
    }
}

/// Classifies one complete HTTP response: status code, the `Retry-After`
/// header value if one came, and the body text.  The outcome is exactly
/// `classify` applied to the status, the body's fields and the header's
/// retry hint.
pub fn handle_response(
    status: u16,
    retry_after_header: Option<&str>,
    body: &str,
) -> (r: Result<FcmResponse, FcmError>)
    ensures
        status == 200 && !transient(body_error_reason(body@)) ==> (r matches Ok(resp)
            && resp.message_id.deep_view() == body_message_id(body@)
            && resp.error == body_error_reason(body@)),
        status == 200 && transient(body_error_reason(body@)) ==> r == Err::<
            FcmResponse,
            FcmError,
        >(FcmError::ServerError(retry_hint(retry_after_header.deep_view()))),
        status == 401 ==> r == Err::<FcmResponse, FcmError>(FcmError::Unauthorized),
        status == 400 ==> (r matches Err(FcmError::InvalidMessage(m)) && m@ == "Bad Request"@),
        status != 200 && status != 401 && status != 400 && 500 <= status < 600 ==> r == Err::<
            FcmResponse,
            FcmError,
        >(FcmError::ServerError(retry_hint(retry_after_header.deep_view()))),
        status != 200 && status != 401 && status != 400 && !(500 <= status < 600) ==> (r matches
            Err(FcmError::InvalidMessage(m)) && m@ == "Unknown Error"@),
{
    let retry_after = match retry_after_header {
        Option::Some(h) => RetryAfter::parse(h),
        Option::None => Option::None,
    };
    let (message_id, error_code) = parse_body_fields(body);
    let error = match &error_code {
        Option::Some(code) => ErrorReason::parse(code.as_str()),
        Option::None => Option::None,
    };
    classify(status, message_id, error, retry_after)
}

} // verus!
