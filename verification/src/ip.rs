//! IP addresses as they are written: the dotted quad of IPv4, and the
//! colon-separated groups of IPv6 with its `::` and its IPv4 tail.

use crate::decimal::{bounded_number, is_digit, parse_bounded};
use crate::text::{
    lemma_pieces_cover, lemma_pieces_nonempty, lemma_pieces_of_doubled, pieces, split, texts,
};
use vstd::prelude::*;

verus! {

/// Whether `c` is a hexadecimal digit, in either case.
pub open spec fn is_hex_digit(c: char) -> bool {
    is_digit(c) || ('a' <= c && c <= 'f') || ('A' <= c && c <= 'F')
}

/// Whether a text is one number of a dotted quad: up to 255, in decimal
/// digits, without a leading zero.
pub open spec fn is_octet(p: Seq<char>) -> bool {
    bounded_number(p, 255) is Some && (p.len() == 1 || p[0] != '0')
}

/// Whether every text of a list is an octet.
pub open spec fn all_octets(list: Seq<Seq<char>>) -> bool {
    forall|k: int| 0 <= k < list.len() ==> is_octet(#[trigger] list[k])
}

/// Whether a text is an IPv4 address: four octets with dots between them.
pub open spec fn is_ipv4(s: Seq<char>) -> bool {
    pieces(s, '.').len() == 4 && all_octets(pieces(s, '.'))
}

/// Whether a text is one group of an IPv6 address: one to four hexadecimal
/// digits.
pub open spec fn is_group(p: Seq<char>) -> bool {
    1 <= p.len() <= 4 && forall|i: int| 0 <= i < p.len() ==> is_hex_digit(#[trigger] p[i])
}

/// Whether every text of a list is a group.
pub open spec fn all_groups(list: Seq<Seq<char>>) -> bool {
    forall|k: int| 0 <= k < list.len() ==> is_group(#[trigger] list[k])
}

/// How many groups of sixteen bits a text stands for: none where it is
/// empty, one for each group where it is groups with colons between them,
/// and, where `v4_tail` allows it, two more for an IPv4 address in the last
/// place. Any other text stands for no groups at all.
pub open spec fn group_count(s: Seq<char>, v4_tail: bool) -> Option<nat> {
    let list = pieces(s, ':');
    if s.len() == 0 {
        Some(0)
    } else if all_groups(list) {
        Some(list.len())
    } else if v4_tail && all_groups(list.drop_last()) && is_ipv4(list.last()) {
        Some(list.len() + 1)
    } else {
        None
    }
}

/// Whether `::` stands in a text at place `at`.
pub open spec fn doubled_colon_at(s: Seq<char>, at: int) -> bool {
    0 <= at && at + 2 <= s.len() && s[at] == ':' && s[at + 1] == ':'
}

/// Whether a text is an IPv6 address with `::` at place `at`: what stands
/// before and what stands after are groups, at most seven together, so that
/// `::` stands for at least one.
pub open spec fn is_compressed_at(s: Seq<char>, at: int) -> bool {
    &&& doubled_colon_at(s, at)
    &&& group_count(s.subrange(0, at), false) matches Some(head)
    &&& group_count(s.subrange(at + 2, s.len() as int), true) matches Some(tail)
    &&& head + tail <= 7
}

/// Whether a text is an IPv6 address: eight groups, the last two of which
/// may be written as an IPv4 address, or fewer with one `::` in place of
/// those that are left out.
pub open spec fn is_ipv6(s: Seq<char>) -> bool {
    ||| s.len() > 0 && group_count(s, true) == Some(8nat)
    ||| exists|at: int| is_compressed_at(s, at)
}

/// Whether a text is an IP address of either kind.
pub open spec fn is_ip(s: Seq<char>) -> bool {
    is_ipv4(s) || is_ipv6(s)
}

/// Whether `c` may stand in an IP address: a hexadecimal digit, a colon or
/// a dot.
pub open spec fn is_ip_char(c: char) -> bool {
    is_hex_digit(c) || c == ':' || c == '.'
}

/// An IPv4 address is made of digits and dots, and is not empty.
pub proof fn lemma_ipv4_chars(s: Seq<char>)
    requires
        is_ipv4(s),
    ensures
        s.len() > 0,
        forall|i: int| 0 <= i < s.len() ==> is_digit(#[trigger] s[i]) || s[i] == '.',
{
    let list = pieces(s, '.');
    if s.len() == 0 {
        assert(list.len() == 1);
    }
    assert forall|i: int| 0 <= i < s.len() implies is_digit(#[trigger] s[i]) || s[i] == '.' by {
        if s[i] != '.' {
            lemma_pieces_cover(s, '.', i);
            let k = choose|k: int| 0 <= k < list.len() && (#[trigger] list[k]).contains(s[i]);
            assert(is_octet(list[k]));
            let j = choose|j: int| 0 <= j < list[k].len() && list[k][j] == s[i];
            assert(is_digit(list[k][j]));
        }
    }
}

/// What stands for groups is made of hexadecimal digits, colons and dots.
pub proof fn lemma_group_chars(s: Seq<char>, v4_tail: bool)
    requires
        group_count(s, v4_tail) is Some,
    ensures
        forall|i: int| 0 <= i < s.len() ==> is_ip_char(#[trigger] s[i]),
{
    let list = pieces(s, ':');
    lemma_pieces_nonempty(s, ':');
    assert forall|i: int| 0 <= i < s.len() implies is_ip_char(#[trigger] s[i]) by {
        if s[i] != ':' {
            lemma_pieces_cover(s, ':', i);
            let k = choose|k: int| 0 <= k < list.len() && (#[trigger] list[k]).contains(s[i]);
            let j = choose|j: int| 0 <= j < list[k].len() && list[k][j] == s[i];
            if all_groups(list) {
                assert(is_group(list[k]));
                assert(is_hex_digit(list[k][j]));
            } else {
                if k < list.len() - 1 {
                    assert(list.drop_last()[k] == list[k]);
                    assert(is_group(list.drop_last()[k]));
                    assert(is_hex_digit(list[k][j]));
                } else {
                    lemma_ipv4_chars(list.last());
                    assert(is_digit(list[k][j]) || list[k][j] == '.');
                }
            }
        }
    }
}

/// An IP address is not empty and is made of hexadecimal digits, colons and
/// dots: no bracket, slash or space stands in it.
pub proof fn lemma_ip_chars(s: Seq<char>)
    requires
        is_ip(s),
    ensures
        s.len() > 0,
        forall|i: int| 0 <= i < s.len() ==> is_ip_char(#[trigger] s[i]),
{
    if is_ipv4(s) {
        lemma_ipv4_chars(s);
    } else if s.len() > 0 && group_count(s, true) == Some(8nat) {
        lemma_group_chars(s, true);
    } else {
        let at = choose|at: int| is_compressed_at(s, at);
        let head = s.subrange(0, at);
        let tail = s.subrange(at + 2, s.len() as int);
        lemma_group_chars(head, false);
        lemma_group_chars(tail, true);
        assert forall|i: int| 0 <= i < s.len() implies is_ip_char(#[trigger] s[i]) by {
            if i < at {
                assert(s[i] == head[i]);
            } else if i >= at + 2 {
                assert(s[i] == tail[i - at - 2]);
            }
        }
    }
}

/// A text that holds `::` is an IPv6 address only with the first `::` as
/// the place of the groups that are left out.
pub proof fn lemma_first_doubled_colon_decides(s: Seq<char>, first: int)
    requires
        doubled_colon_at(s, first),
        forall|j: int| 0 <= j < first ==> !doubled_colon_at(s, j),
    ensures
        is_ipv6(s) == is_compressed_at(s, first),
{
    lemma_pieces_of_doubled(s, ':', first);
    let list = pieces(s, ':');
    let k = choose|k: int| 0 <= k < list.len() - 1 && (#[trigger] list[k]).len() == 0;
    assert(!is_group(list[k]));
    assert(list.drop_last()[k] == list[k]);
    assert(!is_group(list.drop_last()[k]));
    assert(group_count(s, true) is None);
    assert forall|at: int| at != first implies !is_compressed_at(s, at) by {
        if doubled_colon_at(s, at) {
            assert(at > first);
            let head = s.subrange(0, at);
            let parts = pieces(head, ':');
            if at == first + 1 {
                assert(head.last() == ':');
                lemma_pieces_nonempty(head.drop_last(), ':');
                assert(parts.last().len() == 0);
                assert(!is_group(parts[parts.len() - 1]));
            } else {
                assert(head[first] == ':' && head[first + 1] == ':');
                lemma_pieces_of_doubled(head, ':', first);
                let m = choose|m: int| 0 <= m < parts.len() - 1 && (#[trigger] parts[m]).len() == 0;
                assert(!is_group(parts[m]));
            }
            assert(group_count(head, false) is None);
        }
    }
}

/// Whether `chars` is an octet.
fn octet(chars: &[char]) -> (b: bool)
    ensures
        b == is_octet(chars@),
{
    match parse_bounded(chars, 255) {
        Some(_) => chars.len() == 1 || chars[0] != '0',
        None => false,
    }
}

/// Whether `chars` is an IPv4 address.
pub fn ipv4(chars: &[char]) -> (b: bool)
    ensures
        b == is_ipv4(chars@),
{
    let parts = split(chars, '.');
    if parts.len() != 4 {
        return false;
    }
    let mut k: usize = 0;
    while k < 4
        invariant
            k <= 4,
            parts@.len() == 4,
            texts(parts@) == pieces(chars@, '.'),
            forall|j: int| 0 <= j < k ==> is_octet(#[trigger] pieces(chars@, '.')[j]),
        decreases 4 - k,
    {
        if !octet(parts[k].as_slice()) {
            assert(!is_octet(pieces(chars@, '.')[k as int]));
            return false;
        }
        k += 1;
    }
    true
}

/// Whether `chars` is a hexadecimal digit.
fn hex_digit(c: char) -> (b: bool)
    ensures
        b == is_hex_digit(c),
{
    (c >= '0' && c <= '9') || (c >= 'a' && c <= 'f') || (c >= 'A' && c <= 'F')
}

/// Whether `chars` is a group.
fn group(chars: &[char]) -> (b: bool)
    ensures
        b == is_group(chars@),
{
    if chars.len() < 1 || chars.len() > 4 {
        return false;
    }
    let mut i: usize = 0;
    while i < chars.len()
        invariant
            i <= chars@.len(),
            1 <= chars@.len() <= 4,
            forall|j: int| 0 <= j < i ==> is_hex_digit(#[trigger] chars@[j]),
        decreases chars.len() - i,
    {
        if !hex_digit(chars[i]) {
            return false;
        }
        i += 1;
    }
    true
}

/// The groups that `chars` stands for. More than eight may be counted as
/// none.
fn count_groups(chars: &[char], v4_tail: bool) -> (count: Option<usize>)
    ensures
        match count {
            Some(n) => n <= 9 && group_count(chars@, v4_tail) == Some(n as nat),
            None => group_count(chars@, v4_tail) matches Some(n) ==> n > 8,
        },
{
    if chars.len() == 0 {
        return Some(0);
    }
    let parts = split(chars, ':');
    let ghost list = pieces(chars@, ':');
    proof {
        lemma_pieces_nonempty(chars@, ':');
    }
    let n: usize = parts.len();
    if n > 8 {
        return None;
    }
    let mut k: usize = 0;
    while k + 1 < n
        invariant
            k + 1 <= n <= 8,
            n == parts@.len(),
            chars@.len() > 0,
            list == pieces(chars@, ':'),
            texts(parts@) == list,
            forall|j: int| 0 <= j < k ==> is_group(#[trigger] list[j]),
        decreases n - k,
    {
        if !group(parts[k].as_slice()) {
            proof {
                assert(!is_group(list[k as int]));
                assert(list.drop_last()[k as int] == list[k as int]);
            }
            return None;
        }
        k += 1;
    }
    proof {
        assert(list.last() == parts@[n - 1]@);
        assert forall|j: int| 0 <= j < list.drop_last().len() implies is_group(
            #[trigger] list.drop_last()[j],
        ) by {
            assert(list.drop_last()[j] == list[j]);
        }
    }
    if group(parts[n - 1].as_slice()) {
        Some(n)
    } else if v4_tail && ipv4(parts[n - 1].as_slice()) {
        proof {
            assert(!is_group(list[n - 1]));
        }
        Some(n + 1)
    } else {
        proof {
            assert(!is_group(list[n - 1]));
        }
        None
    }
}

/// The first place at which `::` stands in `chars`.
fn find_doubled_colon(chars: &[char]) -> (found: Option<usize>)
    ensures
        match found {
            Some(at) => {
                &&& doubled_colon_at(chars@, at as int)
                &&& forall|j: int| 0 <= j < at ==> !doubled_colon_at(chars@, j)
            },
            None => forall|j: int| !doubled_colon_at(chars@, j),
        },
{
    if chars.len() < 2 {
        return None;
    }
    let mut at: usize = 0;
    while at + 1 < chars.len()
        invariant
            at + 1 <= chars@.len(),
            forall|j: int| 0 <= j < at ==> !doubled_colon_at(chars@, j),
        decreases chars.len() - at,
    {
        if chars[at] == ':' && chars[at + 1] == ':' {
            return Some(at);
        }
        at += 1;
    }
    None
}

/// Whether `chars` is an IPv6 address.
pub fn ipv6(chars: &[char]) -> (b: bool)
    ensures
        b == is_ipv6(chars@),
{
    match find_doubled_colon(chars) {
        None => {
            if chars.len() == 0 {
                return false;
            }
            match count_groups(chars, true) {
                Some(n) => n == 8,
                None => false,
            }
        },
        Some(at) => {
            proof {
                lemma_first_doubled_colon_decides(chars@, at as int);
            }
            let len: usize = chars.len();
            let head = vstd::slice::slice_subrange(chars, 0, at);
            let tail = vstd::slice::slice_subrange(chars, at + 2, len);
            match (count_groups(head, false), count_groups(tail, true)) {
                (Some(h), Some(t)) => h + t <= 7,
                _ => false,
            }
        },
    }
}

/// Whether `chars` is an IP address of either kind.
pub fn ip(chars: &[char]) -> (b: bool)
    ensures
        b == is_ip(chars@),
{
    ipv4(chars) || ipv6(chars)
}

} // verus!
