//! Per-attempt transfer decisions: validating the response to a (possibly
//! ranged) request, determining the total size from response headers, and
//! progress accounting.
use vstd::prelude::*;
use crate::text::contains_ci;
use crate::text::str_contains_ci;

verus! {

/// What the engine does with a response's status code.
#[derive(Debug, Clone, Copy, PartialEq, Eq, Structural)]
pub enum ResponseAction {
    /// Accept the response and stream its body.
    Proceed,
    /// Discard the partial file, reset the offset to zero, mark range
    /// support as absent, and reissue the request without a range.
    RestartFromZero,
    /// Fail this attempt.
    Fail,
}

/// A status code in the 2xx success class.
pub open spec fn is_success_status(status: u16) -> bool {
    200 <= status < 300
}

/// The request-phase decision.  When a ranged resume request is answered
/// with a full-content 200 or with 416 (range not satisfiable), the partial
/// file must be discarded and the request reissued from zero — appending a
/// full body would corrupt the file.  Any other non-success, non-partial
/// status fails the attempt.
pub open spec fn spec_response_action(resuming_ranged: bool, status: u16) -> ResponseAction {
    if resuming_ranged {
        if status == 200 || status == 416 {
            ResponseAction::RestartFromZero
        } else if status != 206 && !is_success_status(status) {
            ResponseAction::Fail
        } else {
            ResponseAction::Proceed
        }
    } else {
        if !is_success_status(status) && status != 206 {
            ResponseAction::Fail
        } else {
            ResponseAction::Proceed
        }
    }
}

/// Decides how to treat a response's status code, given whether the request
/// carried a byte-range header.
pub fn classify_response_status(resuming_ranged: bool, status: u16) -> (r: ResponseAction)
    ensures
        r == spec_response_action(resuming_ranged, status),
{
    let success = 200 <= status && status < 300;
    if resuming_ranged {
        if status == 200 || status == 416 {
            ResponseAction::RestartFromZero
        } else if status != 206 && !success {
            ResponseAction::Fail
        } else {
            ResponseAction::Proceed
        }
    } else {
        if !success && status != 206 {
            ResponseAction::Fail
        } else {
            ResponseAction::Proceed
        }
    }
}

/// The free-space headroom a download demands before it starts.
pub const MIN_FREE_SPACE_BYTES: u64 = 100 * 1024 * 1024;

/// The free-space check: a transfer is refused below a fixed headroom of
/// 100 MiB.  Callers that cannot measure the available space skip the check
/// rather than failing.
pub fn disk_space_sufficient(available_bytes: u64) -> (r: bool)
    ensures
        r == (available_bytes >= MIN_FREE_SPACE_BYTES),
{
    available_bytes >= MIN_FREE_SPACE_BYTES
}

/// An `Accept-Ranges` header value advertises byte ranges when it mentions
/// "bytes" (case-insensitively).
pub fn accept_ranges_advertises_bytes(value: &str) -> (r: bool)
    ensures
        r == contains_ci(value@, "bytes"@),
{
    str_contains_ci(value, "bytes")
}

/// A one-byte ranged probe request confirms range support exactly when it
/// is answered with 206 Partial Content.
pub fn range_probe_confirms(status: u16) -> (r: bool)
    ensures
        r == (status == 206),
{
    status == 206
}

/// `c` is a decimal digit.
pub open spec fn is_digit_char(c: char) -> bool {
    48 <= c as u32 <= 57
}

/// The numeric value of a decimal digit.
pub open spec fn digit_value(c: char) -> int {
    c as u32 - 48
}

/// The value of a digit sequence read as a decimal number.
pub open spec fn decimal_value(s: Seq<char>) -> int
    decreases s.len(),
{
    if s.len() == 0 {
        0
    } else {
        decimal_value(s.drop_last()) * 10 + digit_value(s.last())
    }
}

pub open spec fn all_digits(s: Seq<char>) -> bool {
    forall|i: int| 0 <= i < s.len() ==> is_digit_char(s[i])
}

/// What `u64` parsing accepts: an optional leading `+`, then at least one
/// digit, with the value fitting in 64 bits.
pub open spec fn parse_u64_spec(s: Seq<char>) -> Option<u64> {
    let digits = if s.len() > 0 && s[0] == '+' {
        s.subrange(1, s.len() as int)
    } else {
        s
    };
    if digits.len() > 0 && all_digits(digits) && decimal_value(digits) <= u64::MAX as int {
        Some(decimal_value(digits) as u64)
    } else {
        None
    }
}

/// A digit sequence's value is non-negative.
proof fn lemma_decimal_value_nonneg(s: Seq<char>)
    requires
        all_digits(s),
    ensures
        decimal_value(s) >= 0,
    decreases s.len(),
{
    if s.len() > 0 {
        assert(all_digits(s.drop_last())) by {
            assert(forall|i: int|
                0 <= i < s.len() - 1 ==> s.drop_last()[i] == s[i]);
        }
        lemma_decimal_value_nonneg(s.drop_last());
    }
}

/// Extending a digit sequence never decreases its value.
proof fn lemma_decimal_value_monotone(s: Seq<char>, j: int, k: int)
    requires
        all_digits(s),
        0 <= j <= k <= s.len(),
    ensures
        decimal_value(s.take(j)) <= decimal_value(s.take(k)),
    decreases k - j,
{
    if j < k {
        lemma_decimal_value_monotone(s, j, k - 1);
        let prev = s.take(k - 1);
        let cur = s.take(k);
        assert(cur.drop_last() =~= prev);
        assert(all_digits(prev)) by {
            assert(forall|i: int| 0 <= i < prev.len() ==> prev[i] == s[i]);
        }
        lemma_decimal_value_nonneg(prev);
        assert(is_digit_char(cur.last()));
    }
}

/// Parses the characters `from..to` of `s` as an unsigned decimal number
/// (an optional leading `+`, then digits).
pub fn parse_u64_segment(s: &str, from: usize, to: usize) -> (r: Option<u64>)
    requires
        from <= to <= s@.len(),
        s@.len() <= usize::MAX,
    ensures
        r == parse_u64_spec(s@.subrange(from as int, to as int)),
{
    let ghost seg = s@.subrange(from as int, to as int);
    let mut start = from;
    if from < to && s.get_char(from) == '+' {
        start = from + 1;
    }
    let ghost digits = s@.subrange(start as int, to as int);
    proof {
        if seg.len() > 0 && seg[0] == '+' {
            assert(digits =~= seg.subrange(1, seg.len() as int));
        } else {
            assert(digits =~= seg);
        }
    }
    if start == to {
        return None;
    }
    let mut acc: u64 = 0;
    let mut i = start;
    while i < to
        invariant
            from <= start <= i <= to <= s@.len(),
            s@.len() <= usize::MAX,
            seg == s@.subrange(from as int, to as int),
            digits == s@.subrange(start as int, to as int),
            digits == if seg.len() > 0 && seg[0] == '+' {
                seg.subrange(1, seg.len() as int)
            } else {
                seg
            },
            digits.len() > 0,
            all_digits(digits.take(i - start)),
            acc as int == decimal_value(digits.take(i - start)),
        decreases to - i,
    {
        let c = s.get_char(i);
        let u = c as u32;
        if !(48 <= u && u <= 57) {
            proof {
                assert(digits[i - start] == s@[i as int]);
                assert(!is_digit_char(digits[i - start]));
            }
            return None;
        }
        let d = (u - 48) as u64;
        let ghost prev = digits.take(i - start);
        let ghost cur = digits.take(i - start + 1);
        proof {
            assert(cur.drop_last() =~= prev);
            assert(cur.last() == digits[i - start]);
            assert(digits[i - start] == s@[i as int]);
        }
        let next = match acc.checked_mul(10) {
            Some(v) => v.checked_add(d),
            None => None,
        };
        match next {
            Some(v) => {
                acc = v;
            },
            None => {
                // The value so far already exceeds u64; if the rest are
                // digits too, the full number can only be larger, and if
                // they are not, parsing fails anyway.
                proof {
                    assert(all_digits(cur));
                    assert(decimal_value(cur) > u64::MAX as int);
                    if all_digits(digits) {
                        lemma_decimal_value_monotone(digits, i - start + 1, digits.len() as int);
                        assert(digits.take(digits.len() as int) =~= digits);
                        assert(cur =~= digits.take(i - start + 1));
                    }
                }
                return None;
            },
        }
        i += 1;
    }
    proof {
        assert(digits.take(to - start) =~= digits);
    }
    Some(acc)
}

/// The first position of `c` in `s` at or after `from`; the length of `s`
/// when `c` does not occur there.
pub open spec fn find_char(s: Seq<char>, c: char, from: int) -> int
    decreases s.len() - from,
{
    if from < 0 || from >= s.len() {
        s.len() as int
    } else if s[from] == c {
        from
    } else {
        find_char(s, c, from + 1)
    }
}

/// The total-size field of a `Content-Range` header value: the part between
/// the first `/` and the next `/` or the end, read as a decimal number;
/// zero when absent or unparseable.
pub open spec fn content_range_total_spec(h: Seq<char>) -> u64 {
    let f = find_char(h, '/', 0);
    if f == h.len() {
        0u64
    } else {
        let g = find_char(h, '/', f + 1);
        match parse_u64_spec(h.subrange(f + 1, g)) {
            Some(v) => v,
            None => 0u64,
        }
    }
}

/// Finds the first `/` in `s` at or after `from`, returning the string
/// length when there is none.
fn find_slash(s: &str, from: usize, len: usize) -> (r: usize)
    requires
        len == s@.len(),
        from <= len,
        len <= usize::MAX,
    ensures
        r == find_char(s@, '/', from as int),
        from <= r <= len,
{
    let mut i = from;
    while i < len
        invariant
            len == s@.len(),
            from <= i <= len,
            len <= usize::MAX,
            find_char(s@, '/', from as int) == find_char(s@, '/', i as int),
        decreases len - i,
    {
        if s.get_char(i) == '/' {
            return i;
        }
        i += 1;
    }
    len
}

/// Extracts the total size from a `Content-Range` header value
/// ("bytes 0-99/1234" gives 1234), or zero when it cannot be read.
pub fn parse_content_range_total(header: &str) -> (r: u64)
    ensures
        r == content_range_total_spec(header@),
{
    let len = header.unicode_len();
    let f = find_slash(header, 0, len);
    if f == len {
        return 0;
    }
    let g = find_slash(header, f + 1, len);
    match parse_u64_segment(header, f + 1, g) {
        Some(v) => v,
        None => 0,
    }
}

/// The expected total size of the transfer: the content length plus the
/// resume offset when the content length is known (saturating), else the
/// total field of the `Content-Range` header, else zero (unknown).
pub fn compute_total_size(content_length: Option<u64>, start_byte: u64, content_range: Option<&str>) -> (r: u64)
    ensures
        content_length matches Some(n) ==> r as int == if n + start_byte <= u64::MAX {
            n + start_byte
        } else {
            u64::MAX as int
        },
        content_length is None ==> (content_range matches Some(h) ==> r == content_range_total_spec(
            h@,
        )),
        content_length is None && content_range is None ==> r == 0,
{
    match content_length {
        Some(n) => n.saturating_add(start_byte),
        None => {
            match content_range {
                Some(h) => parse_content_range_total(h),
                None => 0,
            }
        },
    }
}

/// Computes the completion percentage of a transfer, in whole percent.
/// When the total size is unknown (zero), reporting degrades to 0 rather
/// than dividing by zero.
pub fn progress_percent(downloaded: u64, total: u64) -> (r: u64)
    requires
        total > 0 ==> downloaded <= total,
    ensures
        r == if total > 0 {
            (downloaded as int * 100) / (total as int)
        } else {
            0int
        },
        r <= 100,
{
    if total > 0 {
        let wide: u128 = (downloaded as u128) * 100;
        let q = wide / (total as u128);
        proof {
            assert(q <= 100) by (nonlinear_arith)
                requires
                    downloaded <= total,
                    total > 0,
                    wide == downloaded as int * 100,
                    q == wide as int / total as int,
            ;
        }
        q as u64
    } else {
        0
    }
}

/// A live progress report handed to observers.  `percentage` is 0 to 100;
/// `speed_bps` is measured by the caller's clock, in bytes per second.
#[derive(Debug, Clone)]
pub struct ProgressInfo {
    pub percentage: u64,
    pub speed_bps: u64,
    pub downloaded: u64,
    pub total: u64,
    pub retry_count: u32,
    pub is_retrying: bool,
    pub retry_reason: Option<String>,
}

impl Default for ProgressInfo {
    /// An all-zero, non-retrying sample.
    fn default() -> (r: Self)
        ensures
            r.percentage == 0,
            r.speed_bps == 0,
            r.downloaded == 0,
            r.total == 0,
            r.retry_count == 0,
            !r.is_retrying,
            r.retry_reason is None,
    {
        ProgressInfo {
            percentage: 0,
            speed_bps: 0,
            downloaded: 0,
            total: 0,
            retry_count: 0,
            is_retrying: false,
            retry_reason: None,
        }
    }
}

impl ProgressInfo {
    /// A byte-progress tick.
    pub fn progress_sample(downloaded: u64, total: u64, retry_count: u32, speed_bps: u64) -> (r:
        Self)
        requires
            total > 0 ==> downloaded <= total,
        ensures
            r.percentage == if total > 0 {
                (downloaded as int * 100) / (total as int)
            } else {
                0int
            },
            r.speed_bps == speed_bps,
            r.downloaded == downloaded,
            r.total == total,
            r.retry_count == retry_count,
            !r.is_retrying,
            r.retry_reason is None,
    {
        ProgressInfo {
            percentage: progress_percent(downloaded, total),
            speed_bps,
            downloaded,
            total,
            retry_count,
            is_retrying: false,
            retry_reason: None,
        }
    }

    /// A retry notification, distinct from byte-progress ticks: it carries
    /// the attempt count and a human-readable reason.
    pub fn retry_sample(retry_count: u32, reason: String) -> (r: Self)
        ensures
            r.percentage == 0,
            r.speed_bps == 0,
            r.downloaded == 0,
            r.total == 0,
            r.retry_count == retry_count,
            r.is_retrying,
            r.retry_reason matches Some(m) && m == reason,
    {
        ProgressInfo {
            percentage: 0,
            speed_bps: 0,
            downloaded: 0,
            total: 0,
            retry_count,
            is_retrying: true,
            retry_reason: Some(reason),
        }
    }

    /// The final sample of a successful attempt: always 100 percent.
    pub fn completion_sample(downloaded: u64, total: u64, retry_count: u32, speed_bps: u64) -> (r:
        Self)
        ensures
            r.percentage == 100,
            r.speed_bps == speed_bps,
            r.downloaded == downloaded,
            r.total == total,
            r.retry_count == retry_count,
            !r.is_retrying,
            r.retry_reason is None,
    {
        ProgressInfo {
            percentage: 100,
            speed_bps,
            downloaded,
            total,
            retry_count,
            is_retrying: false,
            retry_reason: None,
        }
    }
}

} // verus!
