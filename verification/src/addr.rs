//! Validation of endpoint addresses.
//!
//! The client accepts only literal IPv4 or IPv6 textual addresses; hostnames
//! are rejected before any connection is attempted. The grammar here follows
//! the standard textual forms: four dot-separated decimal octets without
//! leading zeros for IPv4; colon-separated groups of one to four hex digits
//! for IPv6, with at most one `::` standing for a run of zero groups and an
//! optional trailing IPv4 part in the last two group positions.

use vstd::prelude::*;
use vstd::string::StrSliceExecFns;

verus! {

/// Whether `c` is a decimal digit.
pub open spec fn is_dec_digit(c: char) -> bool {
    48 <= c as u32 && c as u32 <= 57
}

/// The value of the decimal digit `c`.
pub open spec fn dec_val(c: char) -> int {
    c as u32 - 48
}

/// Whether `c` is a hexadecimal digit, in either case.
pub open spec fn is_hex_digit(c: char) -> bool {
    is_dec_digit(c) || (97 <= c as u32 && c as u32 <= 102) || (65 <= c as u32 && c as u32 <= 70)
}

/// The first position at or after `i` that does not hold a decimal digit.
pub open spec fn digit_run_end(s: Seq<char>, i: int) -> int
    decreases s.len() - i,
{
    if i < 0 || i >= s.len() || !is_dec_digit(s[i]) {
        i
    } else {
        digit_run_end(s, i + 1)
    }
}

/// The first position at or after `i` that does not hold a hex digit.
pub open spec fn hex_run_end(s: Seq<char>, i: int) -> int
    decreases s.len() - i,
{
    if i < 0 || i >= s.len() || !is_hex_digit(s[i]) {
        i
    } else {
        hex_run_end(s, i + 1)
    }
}

/// The numeric value of the decimal digits in `s[i..j)`.
pub open spec fn digits_val(s: Seq<char>, i: int, j: int) -> int
    decreases j - i,
{
    if j <= i {
        0
    } else {
        digits_val(s, i, j - 1) * 10 + dec_val(s[j - 1])
    }
}

/// Whether `s[i..j)` is a valid IPv4 octet, `j` being the end of the digit
/// run that starts at `i`: one to three digits, no leading zero, value at
/// most 255.
pub open spec fn octet_ok(s: Seq<char>, i: int, j: int) -> bool {
    &&& 1 <= j - i <= 3
    &&& (j - i > 1 ==> s[i] != '0')
    &&& digits_val(s, i, j) <= 255
}

/// If an IPv4 literal starts at position `i` of `s`, the position just past
/// it; `None` otherwise.
pub open spec fn ipv4_from(s: Seq<char>, i: int) -> Option<int> {
    let e1 = digit_run_end(s, i);
    let i2 = e1 + 1;
    let e2 = digit_run_end(s, i2);
    let i3 = e2 + 1;
    let e3 = digit_run_end(s, i3);
    let i4 = e3 + 1;
    let e4 = digit_run_end(s, i4);
    if octet_ok(s, i, e1) && e1 < s.len() && s[e1] == '.' && octet_ok(s, i2, e2) && e2 < s.len()
        && s[e2] == '.' && octet_ok(s, i3, e3) && e3 < s.len() && s[e3] == '.' && octet_ok(
        s,
        i4,
        e4,
    ) {
        Some(e4)
    } else {
        None
    }
}

/// Whether the whole of `s` is an IPv4 literal.
pub open spec fn is_ipv4_literal(s: Seq<char>) -> bool {
    ipv4_from(s, 0) == Some(s.len() as int)
}

/// Reads up to `limit - n` further colon-separated IPv6 groups of `s`
/// starting at `i`, `n` of them already read; an IPv4 literal may stand in
/// the last two remaining group positions. Yields the group count, the
/// position reached, and whether an IPv4 part was read.
pub open spec fn read_groups(s: Seq<char>, i: int, n: int, limit: int) -> (int, int, bool)
    decreases limit - n,
{
    if n >= limit {
        (n, i, false)
    } else {
        let sep_ok = n == 0 || (0 <= i < s.len() && s[i] == ':');
        let j = if n == 0 {
            i
        } else {
            i + 1
        };
        if !sep_ok {
            (n, i, false)
        } else if limit - n >= 2 && ipv4_from(s, j) is Some {
            (n + 2, ipv4_from(s, j)->0, true)
        } else {
            let e = hex_run_end(s, j);
            if 1 <= e - j && e - j <= 4 {
                read_groups(s, e, n + 1, limit)
            } else {
                (n, i, false)
            }
        }
    }
}

/// Whether the whole of `s` is an IPv6 literal: eight groups, or fewer with
/// one `::` standing for the rest, the last two group positions possibly
/// taken by an IPv4 part.
pub open spec fn is_ipv6_literal(s: Seq<char>) -> bool {
    let head = read_groups(s, 0, 0, 8);
    if head.0 == 8 {
        head.1 == s.len()
    } else if head.2 {
        false
    } else {
        &&& head.1 + 2 <= s.len()
        &&& s[head.1] == ':'
        &&& s[head.1 + 1] == ':'
        &&& read_groups(s, head.1 + 2, 0, 8 - head.0 - 1).1 == s.len()
    }
}

/// Whether `s` is a literal IP address, in either the IPv4 or the IPv6
/// textual form.
pub open spec fn is_ip_literal(s: Seq<char>) -> bool {
    is_ipv4_literal(s) || is_ipv6_literal(s)
}

/// Every position of a digit run up to its end holds a decimal digit.
proof fn lemma_digit_run_end(s: Seq<char>, i: int)
    requires
        0 <= i <= s.len(),
    ensures
        i <= digit_run_end(s, i) <= s.len(),
        forall|k: int| i <= k < digit_run_end(s, i) ==> is_dec_digit(s[k]),
    decreases s.len() - i,
{
    if i < s.len() && is_dec_digit(s[i]) {
        lemma_digit_run_end(s, i + 1);
    }
}

/// Whether `c` is a decimal digit.
fn is_dec_digit_x(c: char) -> (b: bool)
    ensures
        b == is_dec_digit(c),
{
    let u = c as u32;
    48 <= u && u <= 57
}

/// Whether `c` is a hexadecimal digit.
fn is_hex_digit_x(c: char) -> (b: bool)
    ensures
        b == is_hex_digit(c),
{
    let u = c as u32;
    (48 <= u && u <= 57) || (97 <= u && u <= 102) || (65 <= u && u <= 70)
}

/// Finds the end of the decimal digit run starting at `i`.
fn digit_run_end_x(s: &str, i: usize, n: usize) -> (r: usize)
    requires
        n == s@.len(),
        i <= n,
    ensures
        r as int == digit_run_end(s@, i as int),
        i <= r <= n,
    decreases n - i,
{
    if i == n {
        i
    } else if is_dec_digit_x(s.get_char(i)) {
        digit_run_end_x(s, i + 1, n)
    } else {
        i
    }
}

/// Finds the end of the hex digit run starting at `i`.
fn hex_run_end_x(s: &str, i: usize, n: usize) -> (r: usize)
    requires
        n == s@.len(),
        i <= n,
    ensures
        r as int == hex_run_end(s@, i as int),
        i <= r <= n,
    decreases n - i,
{
    if i == n {
        i
    } else if is_hex_digit_x(s.get_char(i)) {
        hex_run_end_x(s, i + 1, n)
    } else {
        i
    }
}

/// Decides `octet_ok` for the digit run `s[i..j)`.
fn octet_ok_x(s: &str, i: usize, j: usize, n: usize) -> (b: bool)
    requires
        n == s@.len(),
        i <= j <= n,
        j as int == digit_run_end(s@, i as int),
    ensures
        b == octet_ok(s@, i as int, j as int),
{
    proof {
        lemma_digit_run_end(s@, i as int);
    }
    if j - i < 1 || j - i > 3 {
        return false;
    }
    if j - i > 1 && s.get_char(i) == '0' {
        return false;
    }
    let v: u32 = if j - i == 1 {
        s.get_char(i) as u32 - 48
    } else if j - i == 2 {
        (s.get_char(i) as u32 - 48) * 10 + (s.get_char(i + 1) as u32 - 48)
    } else {
        (s.get_char(i) as u32 - 48) * 100 + (s.get_char(i + 1) as u32 - 48) * 10 + (s.get_char(
            i + 2,
        ) as u32 - 48)
    };
    proof {
        assert(digits_val(s@, i as int, i as int) == 0);
        assert(digits_val(s@, i as int, i as int + 1) == dec_val(s@[i as int]));
        if j - i >= 2 {
            assert(digits_val(s@, i as int, i as int + 2) == dec_val(s@[i as int]) * 10 + dec_val(
                s@[i as int + 1],
            ));
        }
        if j - i == 3 {
            assert(digits_val(s@, i as int, i as int + 3) == (dec_val(s@[i as int]) * 10 + dec_val(
                s@[i as int + 1],
            )) * 10 + dec_val(s@[i as int + 2]));
        }
        assert(v as int == digits_val(s@, i as int, j as int));
    }
    v <= 255
}

/// Finds the end of an IPv4 literal starting at `i`, as `ipv4_from`
/// describes it.
fn ipv4_from_x(s: &str, i: usize, n: usize) -> (r: Option<usize>)
    requires
        n == s@.len(),
        i <= n,
    ensures
        ipv4_from(s@, i as int) == match r {
            Some(e) => Some(e as int),
            None => None::<int>,
        },
        r is Some ==> r->0 <= n,
{
    let e1 = digit_run_end_x(s, i, n);
    if !(octet_ok_x(s, i, e1, n) && e1 < n && s.get_char(e1) == '.') {
        return None;
    }
    let e2 = digit_run_end_x(s, e1 + 1, n);
    if !(octet_ok_x(s, e1 + 1, e2, n) && e2 < n && s.get_char(e2) == '.') {
        return None;
    }
    let e3 = digit_run_end_x(s, e2 + 1, n);
    if !(octet_ok_x(s, e2 + 1, e3, n) && e3 < n && s.get_char(e3) == '.') {
        return None;
    }
    let e4 = digit_run_end_x(s, e3 + 1, n);
    if !octet_ok_x(s, e3 + 1, e4, n) {
        return None;
    }
    Some(e4)
}

/// Reads further IPv6 groups starting at `i`, as `read_groups` describes.
fn read_groups_x(s: &str, i: usize, n: usize, count: usize, limit: usize) -> (r: (
    usize,
    usize,
    bool,
))
    requires
        n == s@.len(),
        i <= n,
        count <= limit <= 8,
    ensures
        read_groups(s@, i as int, count as int, limit as int) == (r.0 as int, r.1 as int, r.2),
        r.1 <= n,
        r.0 <= limit,
    decreases limit - count,
{
    if count >= limit {
        return (count, i, false);
    }
    let sep_ok = count == 0 || (i < n && s.get_char(i) == ':');
    if !sep_ok {
        return (count, i, false);
    }
    let j = if count == 0 {
        i
    } else {
        i + 1
    };
    if limit - count >= 2 {
        let four = ipv4_from_x(s, j, n);
        if let Some(e) = four {
            return (count + 2, e, true);
        }
    }
    let e = hex_run_end_x(s, j, n);
    if 1 <= e - j && e - j <= 4 {
        read_groups_x(s, e, n, count + 1, limit)
    } else {
        (count, i, false)
    }
}

/// Decides whether the whole of `s` is an IPv4 literal.
pub fn check_ipv4_literal(s: &str) -> (b: bool)
    ensures
        b == is_ipv4_literal(s@),
{
    let n = s.unicode_len();
    let r = ipv4_from_x(s, 0, n);
    match r {
        Some(e) => e == n,
        None => false,
    }
}

/// Decides whether the whole of `s` is an IPv6 literal.
pub fn check_ipv6_literal(s: &str) -> (b: bool)
    ensures
        b == is_ipv6_literal(s@),
{
    let n = s.unicode_len();
    let head = read_groups_x(s, 0, n, 0, 8);
    if head.0 == 8 {
        head.1 == n
    } else if head.2 {
        false
    } else {
        if head.1 < n && n - head.1 >= 2 && s.get_char(head.1) == ':' && s.get_char(head.1 + 1)
            == ':' {
            let tail = read_groups_x(s, head.1 + 2, n, 0, 8 - head.0 - 1);
            tail.1 == n
        } else {
            false
        }
    }
}

/// Decides whether `s` is a literal IP address in either textual form.
pub fn check_ip_literal(s: &str) -> (b: bool)
    ensures
        b == is_ip_literal(s@),
{
    check_ipv4_literal(s) || check_ipv6_literal(s)
}

} // verus!
