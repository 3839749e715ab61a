//! Character-level text helpers.
//!
//! All path handling, number formatting and stream parsing in this crate is
//! specified over `Seq<char>` views of strings; this module holds the shared
//! primitives: digit parsing, decimal formatting, substring search and ASCII
//! case folding.

use vstd::prelude::*;

verus! {

/// True when `c` is an ASCII decimal digit.
pub open spec fn is_digit(c: char) -> bool {
    '0' <= c && c <= '9'
}

/// Numeric value of an ASCII decimal digit.
pub open spec fn digit_val(c: char) -> int {
    c as int - '0' as int
}

/// True when every character of `s` is an ASCII decimal digit.
pub open spec fn all_digits(s: Seq<char>) -> bool {
    forall|i: int| 0 <= i < s.len() ==> is_digit(#[trigger] s[i])
}

/// The number denoted by a sequence of decimal digits, most significant first.
pub open spec fn digits_value(s: Seq<char>) -> int
    decreases s.len(),
{
    if s.len() == 0 {
        0
    } else {
        digits_value(s.drop_last()) * 10 + digit_val(s.last())
    }
}

/// The digit character for a value in 0..10.
pub open spec fn digit_char(d: int) -> char {
    ((d + 0x30) as u8) as char
}

/// Decimal representation of a non-negative number, most significant digit
/// first, without leading zeros (`0` is rendered as "0").
pub open spec fn dec_rep(n: int) -> Seq<char>
    decreases n,
{
    if n < 10 {
        seq![digit_char(n)]
    } else {
        dec_rep(n / 10).push(digit_char(n % 10))
    }
}

/// `needle` occurs in `hay` starting at position `i`.
pub open spec fn has_substring_at(hay: Seq<char>, needle: Seq<char>, i: int) -> bool {
    0 <= i && i + needle.len() <= hay.len() && hay.subrange(i, i + needle.len()) == needle
}

/// `needle` occurs somewhere in `hay`.
pub open spec fn has_substring(hay: Seq<char>, needle: Seq<char>) -> bool {
    exists|i: int| has_substring_at(hay, needle, i)
}

/// Position of the first occurrence of `c` in `s`, if any.
pub open spec fn first_index_of(s: Seq<char>, c: char) -> Option<int>
    decreases s.len(),
{
    if s.len() == 0 {
        None
    } else if s[0] == c {
        Some(0int)
    } else {
        match first_index_of(s.skip(1), c) {
            Some(i) => Some(i + 1),
            None => None,
        }
    }
}

/// Position of the last occurrence of `c` in `s`, if any.
pub open spec fn last_index_of(s: Seq<char>, c: char) -> Option<int>
    decreases s.len(),
{
    if s.len() == 0 {
        None
    } else if s.last() == c {
        Some(s.len() - 1)
    } else {
        last_index_of(s.drop_last(), c)
    }
}

/// ASCII lower-case image of a single character.
pub open spec fn ascii_lower_char(c: char) -> char {
    if 'A' <= c && c <= 'Z' {
        ((c as u8) + 0x20) as char
    } else {
        c
    }
}

/// ASCII lower-case image of a character sequence.
pub open spec fn ascii_lower(s: Seq<char>) -> Seq<char> {
    s.map_values(|c: char| ascii_lower_char(c))
}

/// Checks that `s` is non-empty and every character is an ASCII decimal digit.
pub fn check_all_digits(s: &str) -> (r: bool)
    ensures
        r == (all_digits(s@) && s@.len() > 0),
{
    let n = s.unicode_len();
    if n == 0 {
        return false;
    }
    let mut i: usize = 0;
    while i < n
        invariant
            0 <= i <= n,
            n == s@.len(),
            forall|j: int| 0 <= j < i ==> is_digit(#[trigger] s@[j]),
        decreases n - i,
    {
        let c = s.get_char(i);
        if c < '0' || c > '9' {
            return false;
        }
        i = i + 1;
    }
    true
}

pub proof fn lemma_digits_value_bounds(s: Seq<char>)
    requires
        all_digits(s),
    ensures
        0 <= digits_value(s),
        s.len() <= 19 ==> digits_value(s) < pow10(s.len() as nat),
    decreases s.len(),
{
    if s.len() > 0 {
        assert(all_digits(s.drop_last())) by {
            assert(forall|i: int|
                0 <= i < s.len() - 1 ==> s.drop_last()[i] == #[trigger] s[i]);
        }
        lemma_digits_value_bounds(s.drop_last());
        assert(is_digit(s.last()));
    }
}

/// Ten to the power `e`.
pub open spec fn pow10(e: nat) -> int
    decreases e,
{
    if e == 0 {
        1
    } else {
        10 * pow10((e - 1) as nat)
    }
}

/// Ten to any power is positive.
pub proof fn lemma_pow10_pos(e: nat)
    ensures
        pow10(e) > 0,
    decreases e,
{
    if e > 0 {
        lemma_pow10_pos((e - 1) as nat);
    }
}

/// A digit string denotes a non-negative number.
pub proof fn lemma_digits_value_nonneg(s: Seq<char>)
    requires
        all_digits(s),
    ensures
        digits_value(s) >= 0,
{
    lemma_digits_value_bounds(s);
}

/// At most three digits denote at most 999.
pub proof fn lemma_digits_value_small(s: Seq<char>)
    requires
        all_digits(s),
        s.len() <= 3,
    ensures
        0 <= digits_value(s) <= 999,
{
    lemma_digits_value_bounds(s);
    assert(pow10(0) == 1);
    assert(pow10(1) == 10);
    assert(pow10(2) == 100);
    assert(pow10(3) == 1000);
    assert(digits_value(s) < pow10(s.len() as nat));
    if s.len() == 0 {
    } else if s.len() == 1 {
    } else if s.len() == 2 {
    } else {
    }
}

/// Parses a non-empty run of ASCII decimal digits as a `u64`.
/// Returns `None` when `s` is empty, holds a non-digit, or denotes a value
/// above `u64::MAX`.
pub fn parse_u64(s: &str) -> (r: Option<u64>)
    ensures
        match r {
            Some(v) => s@.len() > 0 && all_digits(s@) && v == digits_value(s@),
            None => s@.len() == 0 || !all_digits(s@) || digits_value(s@) > u64::MAX,
        },
{
    let n = s.unicode_len();
    if n == 0 {
        return None;
    }
    let mut acc: u64 = 0;
    let mut i: usize = 0;
    while i < n
        invariant
            0 <= i <= n,
            n == s@.len(),
            all_digits(s@.subrange(0, i as int)),
            acc == digits_value(s@.subrange(0, i as int)),
        decreases n - i,
    {
        let c = s.get_char(i);
        if c < '0' || c > '9' {
            proof {
                assert(!is_digit(s@[i as int]));
            }
            return None;
        }
        let d: u64 = (c as u32 as u64) - 48;
        proof {
            assert(s@.subrange(0, i + 1).drop_last() =~= s@.subrange(0, i as int));
            assert(s@.subrange(0, i + 1).last() == s@[i as int]);
        }
        if acc > (u64::MAX - d) / 10 {
            proof {
                assert(acc * 10 + d > u64::MAX) by (nonlinear_arith)
                    requires
                        acc > (u64::MAX - d) / 10,
                        d <= 9,
                ;
                if all_digits(s@) {
                    lemma_prefix_value_monotone(s@, i + 1);
                }
            }
            return None;
        }
        acc = acc * 10 + d;
        i = i + 1;
    }
    proof {
        assert(s@.subrange(0, n as int) =~= s@);
    }
    Some(acc)
}

/// If a prefix of the digit string already denotes more than `u64::MAX`,
/// so does the whole string.
proof fn lemma_prefix_value_monotone(s: Seq<char>, k: int)
    requires
        0 <= k <= s.len(),
        all_digits(s),
    ensures
        digits_value(s.subrange(0, k)) <= digits_value(s),
    decreases s.len() - k,
{
    if k < s.len() {
        lemma_prefix_value_monotone(s, k + 1);
        let p = s.subrange(0, k + 1);
        assert(p.drop_last() =~= s.subrange(0, k));
        assert(all_digits(p)) by {
            assert(forall|i: int| 0 <= i < p.len() ==> p[i] == #[trigger] s[i]);
        }
        lemma_digits_value_bounds(s.subrange(0, k));
        assert(is_digit(p.last()));
        assert(digits_value(p) == digits_value(s.subrange(0, k)) * 10 + digit_val(p.last()));
        assert(digits_value(s.subrange(0, k)) <= digits_value(p)) by {
            assert(digits_value(s.subrange(0, k)) >= 0);
            assert(digit_val(p.last()) >= 0);
        }
    } else {
        assert(s.subrange(0, k) =~= s);
    }
}

/// Parses a non-empty run of ASCII decimal digits as a `u32`.
pub fn parse_u32(s: &str) -> (r: Option<u32>)
    ensures
        match r {
            Some(v) => s@.len() > 0 && all_digits(s@) && v == digits_value(s@),
            None => s@.len() == 0 || !all_digits(s@) || digits_value(s@) > u32::MAX,
        },
{
    match parse_u64(s) {
        Some(v) => if v <= u32::MAX as u64 {
            Some(v as u32)
        } else {
            None
        },
        None => {
            proof {
                if s@.len() > 0 && all_digits(s@) {
                    lemma_digits_value_bounds(s@);
                }
            }
            None
        },
    }
}

/// The string literal for one decimal digit.
fn one_digit_str(d: u64) -> (r: &'static str)
    requires
        d < 10,
    ensures
        r@ =~= seq![digit_char(d as int)],
{
    proof {
        reveal_strlit("0");
        reveal_strlit("1");
        reveal_strlit("2");
        reveal_strlit("3");
        reveal_strlit("4");
        reveal_strlit("5");
        reveal_strlit("6");
        reveal_strlit("7");
        reveal_strlit("8");
        reveal_strlit("9");
    }
    match d {
        0 => "0",
        1 => "1",
        2 => "2",
        3 => "3",
        4 => "4",
        5 => "5",
        6 => "6",
        7 => "7",
        8 => "8",
        _ => "9",
    }
}

/// Renders `n` in decimal, without leading zeros.
pub fn u64_to_string(n: u64) -> (r: String)
    ensures
        r@ == dec_rep(n as int),
    decreases n,
{
    if n < 10 {
        String::from_str(one_digit_str(n))
    } else {
        let mut prefix = u64_to_string(n / 10);
        prefix.append(one_digit_str(n % 10));
        proof {
            assert(dec_rep((n / 10) as int).push(digit_char((n % 10) as int)) =~= dec_rep(
                (n / 10) as int,
            ) + seq![digit_char((n % 10) as int)]);
        }
        prefix
    }
}

/// Renders `n` in decimal, left-padded with zeros to at least two digits.
pub fn u64_to_string_2(n: u64) -> (r: String)
    ensures
        n < 10 ==> r@ == seq!['0'].push(digit_char(n as int)),
        n >= 10 ==> r@ == dec_rep(n as int),
{
    if n < 10 {
        let mut s = String::from_str("0");
        proof {
            reveal_strlit("0");
        }
        s.append(one_digit_str(n));
        proof {
            assert(("0")@ =~= seq!['0']);
            assert(seq!['0'] + seq![digit_char(n as int)] =~= seq!['0'].push(
                digit_char(n as int),
            ));
        }
        s
    } else {
        u64_to_string(n)
    }
}

/// Compares the characters of `hay` starting at `at` with all of `needle`.
fn matches_at(hay: &str, needle: &str, at: usize, hay_len: usize, needle_len: usize) -> (r: bool)
    requires
        hay_len == hay@.len(),
        needle_len == needle@.len(),
        at + needle_len <= hay_len,
    ensures
        r == (hay@.subrange(at as int, at + needle@.len()) == needle@),
{
    let mut j: usize = 0;
    while j < needle_len
        invariant
            0 <= j <= needle_len,
            hay_len == hay@.len(),
            needle_len == needle@.len(),
            at + needle_len <= hay_len,
            forall|k: int| 0 <= k < j ==> hay@[at + k] == #[trigger] needle@[k],
        decreases needle_len - j,
    {
        if hay.get_char(at + j) != needle.get_char(j) {
            proof {
                assert(hay@.subrange(at as int, at + needle@.len())[j as int] == hay@[at + j]);
            }
            return false;
        }
        j = j + 1;
    }
    proof {
        assert(hay@.subrange(at as int, at + needle@.len()) =~= needle@);
    }
    true
}

/// True when `needle` occurs as a contiguous run of characters in `hay`.
pub fn contains_substring(hay: &str, needle: &str) -> (r: bool)
    ensures
        r == has_substring(hay@, needle@),
{
    let hay_len = hay.unicode_len();
    let needle_len = needle.unicode_len();
    if needle_len > hay_len {
        return false;
    }
    if needle_len == 0 {
        proof {
            assert(hay@.subrange(0, 0) =~= needle@);
            assert(has_substring_at(hay@, needle@, 0));
        }
        return true;
    }
    let last_start = hay_len - needle_len;
    let mut i: usize = 0;
    while i <= last_start
        invariant
            0 <= i <= last_start + 1,
            last_start == hay_len - needle_len,
            hay_len == hay@.len(),
            needle_len == needle@.len(),
            needle_len <= hay_len,
            needle_len >= 1,
            forall|k: int| 0 <= k < i ==> !has_substring_at(hay@, needle@, k),
        decreases last_start + 1 - i,
    {
        if matches_at(hay, needle, i, hay_len, needle_len) {
            proof {
                assert(has_substring_at(hay@, needle@, i as int));
            }
            return true;
        }
        i = i + 1;
    }
    proof {
        assert forall|k: int| !has_substring_at(hay@, needle@, k) by {
            if 0 <= k && k + needle@.len() <= hay@.len() {
                assert(k < i);
            }
        }
    }
    false
}

/// True when the views of `a` and `b` are equal.
pub fn str_eq(a: &str, b: &str) -> (r: bool)
    ensures
        r == (a@ == b@),
{
    let a_len = a.unicode_len();
    let b_len = b.unicode_len();
    if a_len != b_len {
        return false;
    }
    let r = matches_at(a, b, 0, a_len, b_len);
    proof {
        assert(a@.subrange(0, b@.len() as int) =~= a@);
    }
    r
}

/// Position just after the last occurrence of `c` in `s`, or `None`.
pub fn find_last_char(s: &str, c: char) -> (r: Option<usize>)
    ensures
        match r {
            Some(i) => last_index_of(s@, c) == Some(i as int),
            None => last_index_of(s@, c) is None,
        },
{
    let n = s.unicode_len();
    proof {
        assert(s@.subrange(0, n as int) =~= s@);
    }
    let mut i: usize = n;
    while i > 0
        invariant
            0 <= i <= n,
            n == s@.len(),
            last_index_of(s@, c) == last_index_of(s@.subrange(0, i as int), c),
        decreases i,
    {
        proof {
            lemma_last_index_prefix(s@, i as int, c);
        }
        if s.get_char(i - 1) == c {
            proof {
                assert(s@.subrange(0, i as int).last() == s@[i - 1]);
            }
            return Some(i - 1);
        }
        proof {
            assert(s@.subrange(0, i as int).drop_last() =~= s@.subrange(0, i - 1));
        }
        i = i - 1;
    }
    proof {
        assert(s@.subrange(0, 0) =~= Seq::<char>::empty());
    }
    None
}

/// A scan that saw no `c` before `i`, and `c` at `i` (or ran off the end),
/// has found the first occurrence (or shown there is none).
proof fn lemma_first_index_of_scan(s: Seq<char>, c: char, i: int)
    requires
        0 <= i <= s.len(),
        forall|j: int| 0 <= j < i ==> s[j] != c,
        i < s.len() ==> s[i] == c,
    ensures
        i < s.len() ==> first_index_of(s, c) == Some(i),
        i == s.len() ==> first_index_of(s, c) is None,
    decreases s.len(),
{
    if s.len() == 0 {
    } else if s[0] == c {
        assert(i == 0);
    } else {
        let t = s.skip(1);
        assert(forall|j: int| 0 <= j < i - 1 ==> t[j] == s[j + 1] && s[j + 1] != c);
        if i < s.len() {
            assert(t[i - 1] == s[i]);
        }
        lemma_first_index_of_scan(t, c, i - 1);
    }
}

/// Position of the first occurrence of `c` in `s`, or `None`.
pub fn find_first_char(s: &str, c: char) -> (r: Option<usize>)
    ensures
        match r {
            Some(i) => first_index_of(s@, c) == Some(i as int) && i < s@.len() && s@[i as int]
                == c,
            None => first_index_of(s@, c) is None,
        },
{
    let n = s.unicode_len();
    let mut i: usize = 0;
    while i < n
        invariant
            0 <= i <= n,
            n == s@.len(),
            forall|j: int| 0 <= j < i ==> s@[j] != c,
        decreases n - i,
    {
        if s.get_char(i) == c {
            proof {
                lemma_first_index_of_scan(s@, c, i as int);
            }
            return Some(i);
        }
        i = i + 1;
    }
    proof {
        lemma_first_index_of_scan(s@, c, n as int);
    }
    None
}

proof fn lemma_last_index_prefix(s: Seq<char>, i: int, c: char)
    requires
        0 < i <= s.len(),
    ensures
        s.subrange(0, i).len() == i,
        s.subrange(0, i).last() == s[i - 1],
{
}

/// ASCII lower-case copy of `s`; characters outside `A`..`Z` are unchanged.
pub fn to_ascii_lower(s: &str) -> (r: String)
    ensures
        r@ == ascii_lower(s@),
{
    let n = s.unicode_len();
    let mut out = String::new();
    let mut i: usize = 0;
    while i < n
        invariant
            0 <= i <= n,
            n == s@.len(),
            out@ == ascii_lower(s@.subrange(0, i as int)),
        decreases n - i,
    {
        let c = s.get_char(i);
        let lc: char = if c >= 'A' && c <= 'Z' {
            ((c as u32 as u8) + 0x20) as char
        } else {
            c
        };
        proof {
            assert(lc == ascii_lower_char(s@[i as int]));
        }
        push_char(&mut out, lc);
        proof {
            assert(ascii_lower(s@.subrange(0, i + 1)) =~= ascii_lower(
                s@.subrange(0, i as int),
            ).push(ascii_lower_char(s@[i as int])));
        }
        i = i + 1;
    }
    proof {
        assert(s@.subrange(0, n as int) =~= s@);
    }
    out
}

/// The pieces of `s` between occurrences of `c`, in order; `n`
/// occurrences yield `n + 1` pieces, empty pieces included.
pub open spec fn spec_split(s: Seq<char>, c: char) -> Seq<Seq<char>>
    decreases s.len(),
    via spec_split_decreases
{
    match first_index_of(s, c) {
        None => seq![s],
        Some(i) => seq![s.subrange(0, i)] + spec_split(s.skip(i + 1), c),
    }
}

#[via_fn]
proof fn spec_split_decreases(s: Seq<char>, c: char) {
    lemma_first_index_in_bounds(s, c);
}

/// A found first index lies inside the string.
pub proof fn lemma_first_index_in_bounds(s: Seq<char>, c: char)
    ensures
        match first_index_of(s, c) {
            Some(i) => 0 <= i < s.len() && s[i] == c,
            None => true,
        },
    decreases s.len(),
{
    if s.len() > 0 && s[0] != c {
        lemma_first_index_in_bounds(s.skip(1), c);
    }
}

/// Splits `s` at every occurrence of `c`.
pub fn split_on(s: &str, c: char) -> (r: Vec<String>)
    ensures
        r.deep_view() =~~= spec_split(s@, c),
{
    let n = s.unicode_len();
    let mut out: Vec<String> = Vec::new();
    let mut pos: usize = 0;
    proof {
        assert(s@.skip(0) =~= s@);
    }
    loop
        invariant
            0 <= pos <= n,
            n == s@.len(),
            spec_split(s@, c) =~~= out.deep_view() + spec_split(s@.skip(pos as int), c),
        decreases n - pos,
    {
        let rem = s.substring_char(pos, n);
        proof {
            assert(rem@ =~= s@.skip(pos as int));
        }
        match find_first_char(rem, c) {
            Some(i) => {
                let piece = rem.substring_char(0, i);
                out.push(String::from_str(piece));
                proof {
                    assert(rem@.skip(i + 1) =~= s@.skip(pos + i + 1));
                    assert(out.deep_view() =~= out.deep_view().subrange(
                        0,
                        out.deep_view().len() - 1,
                    ).push(piece@));
                }
                pos = pos + i + 1;
            },
            None => {
                out.push(String::from_str(rem));
                proof {
                    assert(spec_split(rem@, c) =~= seq![rem@]);
                }
                return out;
            },
        }
    }
}

/// `s` with every non-overlapping occurrence of `from`, scanning from the
/// left, replaced by `to`.
pub open spec fn spec_replace_all(s: Seq<char>, from: Seq<char>, to: Seq<char>) -> Seq<char>
    decreases s.len(),
{
    if from.len() == 0 || s.len() < from.len() {
        s
    } else if s.subrange(0, from.len() as int) == from {
        to + spec_replace_all(s.skip(from.len() as int), from, to)
    } else {
        seq![s[0]] + spec_replace_all(s.skip(1), from, to)
    }
}

/// Replaces every non-overlapping occurrence of `from` in `s` by `to`,
/// scanning from the left.
pub fn str_replace_all(s: &str, from: &str, to: &str) -> (r: String)
    requires
        from@.len() > 0,
    ensures
        r@ == spec_replace_all(s@, from@, to@),
{
    let n = s.unicode_len();
    let from_len = from.unicode_len();
    let mut out = String::new();
    let mut i: usize = 0;
    proof {
        assert(s@.skip(0) =~= s@);
        assert(out@ + spec_replace_all(s@, from@, to@) =~= spec_replace_all(s@, from@, to@));
    }
    if from_len <= n {
        let last_start = n - from_len;
        while i <= last_start
            invariant
                0 <= i <= n,
                n == s@.len(),
                from_len == from@.len(),
                from_len >= 1,
                from_len <= n,
                last_start == n - from_len,
                spec_replace_all(s@, from@, to@) == out@ + spec_replace_all(
                    s@.skip(i as int),
                    from@,
                    to@,
                ),
            decreases n - i,
        {
            let tail_ghost = Ghost(s@.skip(i as int));
            if matches_at(s, from, i, n, from_len) {
                proof {
                    let tail = tail_ghost@;
                    assert(tail.subrange(0, from@.len() as int) =~= s@.subrange(
                        i as int,
                        i + from@.len(),
                    ));
                    assert(tail.skip(from@.len() as int) =~= s@.skip(i + from@.len()));
                }
                out.append(to);
                i = i + from_len;
            } else {
                proof {
                    let tail = tail_ghost@;
                    assert(tail.subrange(0, from@.len() as int) =~= s@.subrange(
                        i as int,
                        i + from@.len(),
                    ));
                    assert(tail[0] == s@[i as int]);
                    assert(tail.skip(1) =~= s@.skip(i + 1));
                    assert(out@.push(s@[i as int]) =~= out@ + seq![s@[i as int]]);
                }
                let c = s.get_char(i);
                push_char(&mut out, c);
                i = i + 1;
            }
        }
    }
    let rest = s.substring_char(i, n);
    out.append(rest);
    proof {
        assert(s@.skip(i as int) =~= s@.subrange(i as int, n as int));
        assert(spec_replace_all(s@.skip(i as int), from@, to@) == s@.skip(i as int));
    }
    out
}

/// Appends one character to a string.
///
/// Relies on `String::push` from std: it appends exactly the given character.
#[verifier::external_body]
pub fn push_char(s: &mut String, c: char)
    ensures
        final(s)@ == old(s)@.push(c),
{
    s.push(c);
}

} // verus!
