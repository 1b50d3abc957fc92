//! The latency probe: how the ping utility is called, and how the round-trip
//! time is read from what it prints.

use crate::launch::Platform;
use crate::text::{
    chars_of, find_in, find_text, is_whitespace,
    push_str, skip_spaces, slice_of, texts,
};
use vstd::prelude::*;

verus! {

/// The arguments of one probe of `ip`: one echo request, one second to wait
/// for the answer.
pub open spec fn probe_args(platform: Platform, ip: Seq<char>) -> Seq<Seq<char>> {
    if platform == Platform::Windows {
        seq!["-n"@, "1"@, "-w"@, "1000"@, ip]
    } else {
        seq!["-c"@, "1"@, "-W"@, "1"@, ip]
    }
}

/// The arguments of one probe of `ip`.
pub fn ping_args(platform: Platform, ip: &str) -> (args: Vec<String>)
    ensures
        texts(args@) == probe_args(platform, ip@),
{
    let mut args: Vec<String> = Vec::new();
    assert(texts(args@) =~= Seq::<Seq<char>>::empty());
    match platform {
        Platform::Windows => {
            push_str(&mut args, "-n");
            push_str(&mut args, "1");
            push_str(&mut args, "-w");
            push_str(&mut args, "1000");
        },
        _ => {
            push_str(&mut args, "-c");
            push_str(&mut args, "1");
            push_str(&mut args, "-W");
            push_str(&mut args, "1");
        },
    }
    push_str(&mut args, ip);
    assert(texts(args@) =~= probe_args(platform, ip@));
    args
}

/// A decimal digit.
pub open spec fn is_digit(c: char) -> bool {
    '0' <= c <= '9'
}

/// The value of a decimal digit.
pub open spec fn digit_value(c: char) -> nat {
    (c as u32 - '0' as u32) as nat
}

/// The number of digits that stand in `s` from `from` on without a break.
pub open spec fn digits_len(s: Seq<char>, from: int) -> nat
    decreases s.len() - from,
{
    if 0 <= from < s.len() && is_digit(s[from]) {
        1 + digits_len(s, from + 1)
    } else {
        0
    }
}

/// The number that a sequence of digits writes in decimal.
pub open spec fn number_value(digits: Seq<char>) -> nat
    decreases digits.len(),
{
    if digits.len() == 0 {
        0
    } else {
        number_value(digits.drop_last()) * 10 + digit_value(digits.last())
    }
}

/// The whole number that `s` starts with, after white space: `None` where no
/// digit stands there, or where the number does not fit 64 bits.
pub open spec fn leading_number(s: Seq<char>) -> Option<u64> {
    let a = skip_spaces(s, 0, s.len() as int);
    let n = digits_len(s, a);
    let v = number_value(s.subrange(a, a + n));
    if n == 0 || v > u64::MAX {
        None
    } else {
        Some(v as u64)
    }
}

/// What follows the first occurrence of `marker` in `output`.
pub open spec fn text_after(output: Seq<char>, marker: Seq<char>) -> Option<Seq<char>> {
    match find_text(output, marker) {
        Some(i) => Some(output.subrange(i + marker.len(), output.len() as int)),
        None => None,
    }
}

/// What follows the marker of the round-trip time. The markers are tried in
/// this order, and the first that occurs decides: `time=`, `time<`, and the
/// two that a Chinese locale prints in their place.
pub open spec fn text_after_marker(output: Seq<char>) -> Option<Seq<char>> {
    if text_after(output, "time="@) is Some {
        text_after(output, "time="@)
    } else if text_after(output, "time<"@) is Some {
        text_after(output, "time<"@)
    } else if text_after(output, "时间="@) is Some {
        text_after(output, "时间="@)
    } else {
        text_after(output, "时间<"@)
    }
}

/// The round-trip time that the ping utility printed, in whole milliseconds:
/// the whole number behind the marker, a fraction dropped.
pub open spec fn ping_latency(output: Seq<char>) -> Option<u64> {
    match text_after_marker(output) {
        Some(rest) => leading_number(rest),
        None => None,
    }
}

/// The value of a run of digits is no less than that of its beginning.
proof fn lemma_number_value_grows(s: Seq<char>, a: int, k: int, m: int)
    requires
        0 <= a,
        0 <= k <= m,
        a + m <= s.len(),
    ensures
        number_value(s.subrange(a, a + k)) <= number_value(s.subrange(a, a + m)),
    decreases m - k,
{
    if k < m {
        lemma_number_value_grows(s, a, k, m - 1);
        assert(s.subrange(a, a + m).drop_last() =~= s.subrange(a, a + m - 1));
    }
}

/// The run of digits from `from` ends inside the text.
proof fn lemma_digits_len_bound(s: Seq<char>, from: int)
    requires
        0 <= from <= s.len(),
    ensures
        from + digits_len(s, from) <= s.len(),
    decreases s.len() - from,
{
    if from < s.len() && is_digit(s[from]) {
        lemma_digits_len_bound(s, from + 1);
    }
}

/// The whole number that `s` starts with, after white space.
pub fn parse_leading_number(s: &[char]) -> (r: Option<u64>)
    ensures
        r == leading_number(s@),
{
    let n: usize = s.len();
    let mut a: usize = 0;
    while a < n && is_whitespace(s[a])
        invariant
            n == s.len(),
            a <= n,
            skip_spaces(s@, 0, n as int) == skip_spaces(s@, a as int, n as int),
        decreases n - a,
    {
        a += 1;
    }
    let mut i: usize = a;
    let mut acc: u64 = 0;
    assert(s@.subrange(a as int, a as int) =~= Seq::<char>::empty());
    while i < n && '0' <= s[i] && s[i] <= '9'
        invariant
            n == s.len(),
            a <= i <= n,
            a == skip_spaces(s@, 0, n as int),
            digits_len(s@, a as int) == (i - a) + digits_len(s@, i as int),
            acc == number_value(s@.subrange(a as int, i as int)),
        decreases n - i,
    {
        let d: u64 = (s[i] as u32 - '0' as u32) as u64;
        proof {
            assert(s@.subrange(a as int, i + 1).drop_last() =~= s@.subrange(a as int, i as int));
            assert(number_value(s@.subrange(a as int, i + 1)) == acc * 10 + d);
        }
        if acc > (u64::MAX - d) / 10 {
            proof {
                let total = digits_len(s@, a as int) as int;
                lemma_digits_len_bound(s@, a as int);
                lemma_number_value_grows(s@, a as int, i + 1 - a, total);
            }
            return None;
        }
        acc = acc * 10 + d;
        i += 1;
    }
    if i == a {
        None
    } else {
        Some(acc)
    }
}

/// What follows the first occurrence of `marker` in `output`.
fn after_marker(output: &[char], marker: &str) -> (r: Option<Vec<char>>)
    ensures
        match r {
            Some(rest) => text_after(output@, marker@) == Some(rest@),
            None => text_after(output@, marker@) is None,
        },
{
    let m = chars_of(marker);
    match find_in(output, m.as_slice(), 0) {
        Some(i) => {
            Some(slice_of(output, i + m.len(), output.len()))
        },
        None => None,
    }
}

/// The round-trip time that the ping utility printed, in whole milliseconds.
pub fn parse_ping_latency(output: &str) -> (r: Option<u64>)
    ensures
        r == ping_latency(output@),
{
    let c = chars_of(output);
    let o = c.as_slice();
    let rest = match after_marker(o, "time=") {
        Some(rest) => Some(rest),
        None => match after_marker(o, "time<") {
            Some(rest) => Some(rest),
            None => match after_marker(o, "时间=") {
                Some(rest) => Some(rest),
                None => after_marker(o, "时间<"),
            },
        },
    };
    match rest {
        Some(rest) => parse_leading_number(rest.as_slice()),
        None => None,
    }
}

} // verus!
