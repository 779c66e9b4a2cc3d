//! Verified helpers for character-level string processing: equality, prefix
//! and suffix tests, substring search (case-sensitive and ASCII
//! case-insensitive), line splitting and decimal/hex formatting.

use vstd::prelude::*;
use vstd::string::*;

verus! {

/// True iff the two strings hold the same characters.
pub fn str_eq(a: &str, b: &str) -> (r: bool)
    ensures
        r == (a@ == b@),
{
    let alen = a.unicode_len();
    let blen = b.unicode_len();
    if alen != blen {
        return false;
    }
    let mut i: usize = 0;
    while i < alen
        invariant
            alen == a@.len(),
            blen == b@.len(),
            alen == blen,
            i <= alen,
            forall|j: int| 0 <= j < i ==> a@[j] == b@[j],
        decreases alen - i,
    {
        if a.get_char(i) != b.get_char(i) {
            return false;
        }
        i += 1;
    }
    assert(a@ =~= b@);
    true
}

/// True iff `p` is a prefix of `s`.
pub fn starts_with(s: &str, p: &str) -> (r: bool)
    ensures
        r == p@.is_prefix_of(s@),
{
    let plen = p.unicode_len();
    let slen = s.unicode_len();
    if plen > slen {
        return false;
    }
    let mut i: usize = 0;
    while i < plen
        invariant
            plen == p@.len(),
            slen == s@.len(),
            plen <= slen,
            i <= plen,
            forall|j: int| 0 <= j < i ==> s@[j] == p@[j],
        decreases plen - i,
    {
        if s.get_char(i) != p.get_char(i) {
            assert(s@.subrange(0, plen as int)[i as int] != p@[i as int]);
            return false;
        }
        i += 1;
    }
    assert(p@ =~= s@.subrange(0, plen as int));
    true
}

/// True iff `p` is a suffix of `s`.
pub fn ends_with(s: &str, p: &str) -> (r: bool)
    ensures
        r == p@.is_suffix_of(s@),
{
    let plen = p.unicode_len();
    let slen = s.unicode_len();
    if plen > slen {
        return false;
    }
    let off = slen - plen;
    let mut i: usize = 0;
    while i < plen
        invariant
            plen == p@.len(),
            slen == s@.len(),
            plen <= slen,
            off == slen - plen,
            i <= plen,
            forall|j: int| 0 <= j < i ==> s@[off + j] == p@[j],
        decreases plen - i,
    {
        if s.get_char(off + i) != p.get_char(i) {
            assert(s@.subrange(off as int, slen as int)[i as int] != p@[i as int]);
            return false;
        }
        i += 1;
    }
    assert(p@ =~= s@.subrange(off as int, slen as int));
    true
}

/// The characters of `p` occur in `s` starting at position `i`.
pub open spec fn occurs_at(s: Seq<char>, p: Seq<char>, i: int) -> bool {
    0 <= i && i + p.len() <= s.len() && p == s.subrange(i, i + p.len() as int)
}

fn matches_at(s: &str, p: &str, i: usize) -> (r: bool)
    requires
        i + p@.len() <= s@.len(),
    ensures
        r == occurs_at(s@, p@, i as int),
{
    let plen = p.unicode_len();
    let slen = s.unicode_len();
    let mut k: usize = 0;
    while k < plen
        invariant
            plen == p@.len(),
            slen == s@.len(),
            i + plen <= slen,
            k <= plen,
            forall|j: int| 0 <= j < k ==> s@[i + j] == p@[j],
        decreases plen - k,
    {
        if s.get_char(i + k) != p.get_char(k) {
            assert(s@.subrange(i as int, i + plen as int)[k as int] != p@[k as int]);
            return false;
        }
        k += 1;
    }
    assert(p@ =~= s@.subrange(i as int, i + plen as int));
    true
}

/// Position of the first occurrence of `p` in `s`, if any.
pub fn find_sub(s: &str, p: &str) -> (r: Option<usize>)
    ensures
        match r {
            Some(i) => occurs_at(s@, p@, i as int) && forall|j: int|
                0 <= j < i ==> !occurs_at(s@, p@, j),
            None => forall|j: int| !occurs_at(s@, p@, j),
        },
{
    let slen = s.unicode_len();
    let plen = p.unicode_len();
    if plen > slen {
        return None;
    }
    if plen == 0 {
        assert(occurs_at(s@, p@, 0)) by {
            assert(p@ =~= s@.subrange(0, 0));
        }
        return Some(0);
    }
    let mut i: usize = 0;
    while i <= slen - plen
        invariant
            slen == s@.len(),
            plen == p@.len(),
            0 < plen <= slen,
            i <= slen - plen + 1,
            forall|j: int| 0 <= j < i ==> !occurs_at(s@, p@, j),
        decreases slen + 1 - i,
    {
        if matches_at(s, p, i) {
            return Some(i);
        }
        i += 1;
    }
    None
}

/// Position of the last occurrence of `p` in `s`, if any.
pub fn rfind_sub(s: &str, p: &str) -> (r: Option<usize>)
    ensures
        match r {
            Some(i) => occurs_at(s@, p@, i as int) && forall|j: int|
                i < j ==> !occurs_at(s@, p@, j),
            None => forall|j: int| !occurs_at(s@, p@, j),
        },
{
    let slen = s.unicode_len();
    let plen = p.unicode_len();
    if plen > slen {
        return None;
    }
    if plen == 0 {
        assert(occurs_at(s@, p@, slen as int)) by {
            assert(p@ =~= s@.subrange(slen as int, slen as int));
        }
        return Some(slen);
    }
    let mut i: usize = slen - plen + 1;
    while i > 0
        invariant
            slen == s@.len(),
            plen == p@.len(),
            0 < plen <= slen,
            i <= slen - plen + 1,
            forall|j: int| i <= j ==> !occurs_at(s@, p@, j),
        decreases i,
    {
        i -= 1;
        if matches_at(s, p, i) {
            return Some(i);
        }
    }
    None
}

/// True iff `p` occurs somewhere in `s`.
pub fn contains_sub(s: &str, p: &str) -> (r: bool)
    ensures
        r == exists|i: int| occurs_at(s@, p@, i),
{
    match find_sub(s, p) {
        Some(i) => {
            assert(occurs_at(s@, p@, i as int));
            true
        },
        None => false,
    }
}

/// The two characters are equal up to ASCII letter case.
pub open spec fn eq_ascii_ci(a: char, b: char) -> bool {
    a == b || (65 <= a as int <= 90 && b as int == a as int + 32) || (65 <= b as int <= 90
        && a as int == b as int + 32)
}

pub fn chars_eq_ci(a: char, b: char) -> (r: bool)
    ensures
        r == eq_ascii_ci(a, b),
{
    let x = a as u32;
    let y = b as u32;
    x == y || (65 <= x && x <= 90 && y == x + 32) || (65 <= y && y <= 90 && x == y + 32)
}

/// The two character sequences are equal up to ASCII letter case.
pub open spec fn str_ci_eq(a: Seq<char>, b: Seq<char>) -> bool {
    a.len() == b.len() && forall|j: int| 0 <= j < a.len() ==> eq_ascii_ci(a[j], b[j])
}

/// True iff the two strings are equal up to ASCII letter case.
pub fn str_eq_ci(a: &str, b: &str) -> (r: bool)
    ensures
        r == str_ci_eq(a@, b@),
{
    let alen = a.unicode_len();
    let blen = b.unicode_len();
    if alen != blen {
        return false;
    }
    let mut i: usize = 0;
    while i < alen
        invariant
            alen == a@.len(),
            blen == b@.len(),
            alen == blen,
            i <= alen,
            forall|j: int| 0 <= j < i ==> eq_ascii_ci(a@[j], b@[j]),
        decreases alen - i,
    {
        if !chars_eq_ci(a.get_char(i), b.get_char(i)) {
            return false;
        }
        i += 1;
    }
    true
}

/// The characters of `p` occur in `s` at position `i`, compared up to ASCII
/// letter case.
pub open spec fn occurs_ci_at(s: Seq<char>, p: Seq<char>, i: int) -> bool {
    0 <= i && i + p.len() <= s.len() && forall|j: int|
        0 <= j < p.len() ==> eq_ascii_ci(s[i + j], p[j])
}

fn matches_ci_at(s: &str, p: &str, i: usize) -> (r: bool)
    requires
        i + p@.len() <= s@.len(),
    ensures
        r == occurs_ci_at(s@, p@, i as int),
{
    let plen = p.unicode_len();
    let slen = s.unicode_len();
    let mut k: usize = 0;
    while k < plen
        invariant
            plen == p@.len(),
            slen == s@.len(),
            i + plen <= slen,
            k <= plen,
            forall|j: int| 0 <= j < k ==> eq_ascii_ci(s@[i + j], p@[j]),
        decreases plen - k,
    {
        if !chars_eq_ci(s.get_char(i + k), p.get_char(k)) {
            return false;
        }
        k += 1;
    }
    true
}

/// Position of the last occurrence of `p` in `s` up to ASCII letter case.
pub fn rfind_sub_ci(s: &str, p: &str) -> (r: Option<usize>)
    ensures
        match r {
            Some(i) => occurs_ci_at(s@, p@, i as int) && forall|j: int|
                i < j ==> !occurs_ci_at(s@, p@, j),
            None => forall|j: int| !occurs_ci_at(s@, p@, j),
        },
{
    let slen = s.unicode_len();
    let plen = p.unicode_len();
    if plen > slen {
        return None;
    }
    if plen == 0 {
        assert(occurs_ci_at(s@, p@, slen as int));
        return Some(slen);
    }
    let mut i: usize = slen - plen + 1;
    while i > 0
        invariant
            slen == s@.len(),
            plen == p@.len(),
            0 < plen <= slen,
            i <= slen - plen + 1,
            forall|j: int| i <= j ==> !occurs_ci_at(s@, p@, j),
        decreases i,
    {
        i -= 1;
        if matches_ci_at(s, p, i) {
            return Some(i);
        }
    }
    None
}

/// Relies on `String::push`: appends exactly the given character.
#[verifier::external_body]
pub(crate) fn push_char(s: &mut String, c: char)
    ensures
        final(s)@ == old(s)@.push(c),
{
    s.push(c);
}

/// Copy of `s` as an owned string.
pub fn to_string(s: &str) -> (r: String)
    ensures
        r@ == s@,
{
    String::from_str(s)
}

/// The characters of `s` from `from` (inclusive) to `to` (exclusive), owned.
pub fn substring(s: &str, from: usize, to: usize) -> (r: String)
    requires
        from <= to <= s@.len(),
    ensures
        r@ == s@.subrange(from as int, to as int),
{
    String::from_str(s.substring_char(from, to))
}

/// ASCII whitespace.
pub open spec fn is_ws(c: char) -> bool {
    c == ' ' || c == '\t' || c == '\r' || c == '\n'
}

/// `s` without leading characters satisfying `is_ws`.
pub open spec fn trim_left_ws(s: Seq<char>) -> Seq<char>
    decreases s.len(),
{
    if s.len() > 0 && is_ws(s[0]) {
        trim_left_ws(s.skip(1))
    } else {
        s
    }
}

/// `s` without trailing characters satisfying `is_ws`.
pub open spec fn trim_right_ws(s: Seq<char>) -> Seq<char>
    decreases s.len(),
{
    if s.len() > 0 && is_ws(s.last()) {
        trim_right_ws(s.drop_last())
    } else {
        s
    }
}

/// `s` without leading and trailing ASCII whitespace.
pub open spec fn spec_trim_ws(s: Seq<char>) -> Seq<char> {
    trim_right_ws(trim_left_ws(s))
}

/// `s` without leading occurrences of `c`.
pub open spec fn trim_left_ch(s: Seq<char>, c: char) -> Seq<char>
    decreases s.len(),
{
    if s.len() > 0 && s[0] == c {
        trim_left_ch(s.skip(1), c)
    } else {
        s
    }
}

/// `s` without trailing occurrences of `c`.
pub open spec fn trim_right_ch(s: Seq<char>, c: char) -> Seq<char>
    decreases s.len(),
{
    if s.len() > 0 && s.last() == c {
        trim_right_ch(s.drop_last(), c)
    } else {
        s
    }
}

/// `s` without leading and trailing occurrences of `c`.
pub open spec fn spec_trim_ch(s: Seq<char>, c: char) -> Seq<char> {
    trim_right_ch(trim_left_ch(s, c), c)
}

fn is_ws_char(c: char) -> (r: bool)
    ensures
        r == is_ws(c),
{
    c == ' ' || c == '\t' || c == '\r' || c == '\n'
}

/// Copy of `s` without leading and trailing ASCII whitespace.
pub fn trim_ws(s: &str) -> (r: String)
    ensures
        r@ == spec_trim_ws(s@),
{
    let n = s.unicode_len();
    let mut i: usize = 0;
    proof {
        assert(s@.skip(0) =~= s@);
    }
    while i < n && is_ws_char(s.get_char(i))
        invariant
            n == s@.len(),
            i <= n,
            trim_left_ws(s@) == trim_left_ws(s@.skip(i as int)),
        decreases n - i,
    {
        proof {
            assert(s@.skip(i as int).skip(1) =~= s@.skip(i + 1));
        }
        i += 1;
    }
    proof {
        if i < n {
            assert(s@.skip(i as int)[0] == s@[i as int]);
        } else {
            assert(s@.skip(i as int) =~= Seq::<char>::empty());
        }
        assert(trim_left_ws(s@) == s@.skip(i as int));
    }
    let mut j: usize = n;
    while j > i && is_ws_char(s.get_char(j - 1))
        invariant
            n == s@.len(),
            i <= j <= n,
            trim_left_ws(s@) == s@.skip(i as int),
            trim_right_ws(s@.subrange(i as int, n as int)) == trim_right_ws(
                s@.subrange(i as int, j as int),
            ),
        decreases j,
    {
        proof {
            assert(s@.subrange(i as int, j as int).drop_last() =~= s@.subrange(i as int, j - 1));
            assert(s@.subrange(i as int, j as int).last() == s@[j - 1]);
        }
        j -= 1;
    }
    proof {
        let seg = s@.subrange(i as int, j as int);
        if j > i {
            assert(seg.last() == s@[j - 1]);
            assert(!is_ws(seg.last()));
        } else {
            assert(seg =~= Seq::<char>::empty());
        }
        assert(trim_right_ws(seg) == seg);
        assert(s@.subrange(i as int, n as int) =~= s@.skip(i as int));
    }
    substring(s, i, j)
}

/// Copy of `s` without leading and trailing occurrences of `c`.
pub fn trim_char_ends(s: &str, c: char) -> (r: String)
    ensures
        r@ == spec_trim_ch(s@, c),
{
    let n = s.unicode_len();
    let mut i: usize = 0;
    proof {
        assert(s@.skip(0) =~= s@);
    }
    while i < n && s.get_char(i) == c
        invariant
            n == s@.len(),
            i <= n,
            trim_left_ch(s@, c) == trim_left_ch(s@.skip(i as int), c),
        decreases n - i,
    {
        proof {
            assert(s@.skip(i as int).skip(1) =~= s@.skip(i + 1));
        }
        i += 1;
    }
    proof {
        if i < n {
            assert(s@.skip(i as int)[0] == s@[i as int]);
        } else {
            assert(s@.skip(i as int) =~= Seq::<char>::empty());
        }
        assert(trim_left_ch(s@, c) == s@.skip(i as int));
    }
    let mut j: usize = n;
    while j > i && s.get_char(j - 1) == c
        invariant
            n == s@.len(),
            i <= j <= n,
            trim_left_ch(s@, c) == s@.skip(i as int),
            trim_right_ch(s@.subrange(i as int, n as int), c) == trim_right_ch(
                s@.subrange(i as int, j as int),
                c,
            ),
        decreases j,
    {
        proof {
            assert(s@.subrange(i as int, j as int).drop_last() =~= s@.subrange(i as int, j - 1));
            assert(s@.subrange(i as int, j as int).last() == s@[j - 1]);
        }
        j -= 1;
    }
    proof {
        let seg = s@.subrange(i as int, j as int);
        if j > i {
            assert(seg.last() == s@[j - 1]);
        } else {
            assert(seg =~= Seq::<char>::empty());
        }
        assert(trim_right_ch(seg, c) == seg);
        assert(s@.subrange(i as int, n as int) =~= s@.skip(i as int));
    }
    substring(s, i, j)
}

/// Copy of `s` without leading occurrences of `c`.
pub fn trim_char_start(s: &str, c: char) -> (r: String)
    ensures
        r@ == trim_left_ch(s@, c),
{
    let n = s.unicode_len();
    let mut i: usize = 0;
    proof {
        assert(s@.skip(0) =~= s@);
    }
    while i < n && s.get_char(i) == c
        invariant
            n == s@.len(),
            i <= n,
            trim_left_ch(s@, c) == trim_left_ch(s@.skip(i as int), c),
        decreases n - i,
    {
        proof {
            assert(s@.skip(i as int).skip(1) =~= s@.skip(i + 1));
        }
        i += 1;
    }
    proof {
        if i < n {
            assert(s@.skip(i as int)[0] == s@[i as int]);
        } else {
            assert(s@.skip(i as int) =~= Seq::<char>::empty());
        }
        assert(trim_left_ch(s@, c) == s@.skip(i as int));
        assert(s@.skip(i as int) =~= s@.subrange(i as int, n as int));
    }
    substring(s, i, n)
}

/// The lines of `s`, split on `\n`; a trailing newline yields no final
/// empty line, and carriage returns are kept.
pub open spec fn spec_split_lines(s: Seq<char>) -> Seq<Seq<char>>
    decreases s.len(),
{
    if s.len() == 0 {
        Seq::empty()
    } else if s[0] == '\n' {
        seq![Seq::<char>::empty()] + spec_split_lines(s.skip(1))
    } else {
        let rest = spec_split_lines(s.skip(1));
        if rest.len() == 0 {
            seq![seq![s[0]]]
        } else {
            rest.update(0, seq![s[0]] + rest[0])
        }
    }
}

/// The lines of `s`, split on `\n`.
pub fn split_lines(s: &str) -> (r: Vec<String>)
    ensures
        r@.map_values(|l: String| l@) == spec_split_lines(s@),
    decreases s@.len(),
{
    let n = s.unicode_len();
    if n == 0 {
        let r: Vec<String> = Vec::new();
        proof {
            assert(r@.map_values(|l: String| l@) =~= spec_split_lines(s@));
        }
        return r;
    }
    let c = s.get_char(0);
    let tail = s.substring_char(1, n);
    proof {
        assert(tail@ =~= s@.skip(1));
    }
    let mut rest = split_lines(tail);
    if c == '\n' {
        rest.insert(0, String::new());
        proof {
            assert(rest@.map_values(|l: String| l@) =~= spec_split_lines(s@));
        }
        rest
    } else if rest.len() == 0 {
        let mut line = String::new();
        push_char(&mut line, c);
        let mut r: Vec<String> = Vec::new();
        r.push(line);
        proof {
            assert(r@.map_values(|l: String| l@) =~= spec_split_lines(s@));
        }
        r
    } else {
        let first = rest.remove(0);
        let mut line = String::new();
        push_char(&mut line, c);
        line.append(first.as_str());
        rest.insert(0, line);
        proof {
            assert(rest@.map_values(|l: String| l@) =~= spec_split_lines(s@));
        }
        rest
    }
}

/// The decimal digit character for `d`.
pub open spec fn dec_digit(d: int) -> char {
    if d == 0 {
        '0'
    } else if d == 1 {
        '1'
    } else if d == 2 {
        '2'
    } else if d == 3 {
        '3'
    } else if d == 4 {
        '4'
    } else if d == 5 {
        '5'
    } else if d == 6 {
        '6'
    } else if d == 7 {
        '7'
    } else if d == 8 {
        '8'
    } else {
        '9'
    }
}

/// The decimal representation of `n >= 0`, without leading zeros.
pub open spec fn dec_of(n: int) -> Seq<char>
    decreases n,
{
    if n < 10 {
        seq![dec_digit(n)]
    } else {
        dec_of(n / 10).push(dec_digit(n % 10))
    }
}

fn dec_digit_char(d: u64) -> (r: char)
    requires
        d < 10,
    ensures
        r == dec_digit(d as int),
{
    if d == 0 {
        '0'
    } else if d == 1 {
        '1'
    } else if d == 2 {
        '2'
    } else if d == 3 {
        '3'
    } else if d == 4 {
        '4'
    } else if d == 5 {
        '5'
    } else if d == 6 {
        '6'
    } else if d == 7 {
        '7'
    } else if d == 8 {
        '8'
    } else {
        '9'
    }
}

/// The decimal representation of `n`.
pub fn u64_to_string(n: u64) -> (r: String)
    ensures
        r@ == dec_of(n as int),
    decreases n,
{
    if n < 10 {
        let mut s = String::new();
        push_char(&mut s, dec_digit_char(n));
        assert(s@ =~= dec_of(n as int));
        s
    } else {
        let mut s = u64_to_string(n / 10);
        push_char(&mut s, dec_digit_char(n % 10));
        s
    }
}

/// The decimal representation of `v`, with a leading minus sign when negative.
pub open spec fn dec_signed_of(v: int) -> Seq<char> {
    if v < 0 {
        seq!['-'] + dec_of(-v)
    } else {
        dec_of(v)
    }
}

/// The decimal representation of `v`.
pub fn i32_to_string(v: i32) -> (r: String)
    ensures
        r@ == dec_signed_of(v as int),
{
    if v >= 0 {
        u64_to_string(v as u64)
    } else {
        let m: u64 = if v == i32::MIN {
            2147483648u64
        } else {
            (-v) as u64
        };
        assert(m as int == -(v as int));
        let mut s = String::new();
        push_char(&mut s, '-');
        let digits = u64_to_string(m);
        let r = s.concat(digits.as_str());
        assert(r@ =~= dec_signed_of(v as int));
        r
    }
}

/// The lower-case hexadecimal digit character for `d`.
pub open spec fn hex_digit(d: int) -> char {
    if d < 10 {
        dec_digit(d)
    } else if d == 10 {
        'a'
    } else if d == 11 {
        'b'
    } else if d == 12 {
        'c'
    } else if d == 13 {
        'd'
    } else if d == 14 {
        'e'
    } else {
        'f'
    }
}

/// The lower-case hexadecimal representation of `n >= 0`, without leading
/// zeros.
pub open spec fn hex_of(n: int) -> Seq<char>
    decreases n,
{
    if n < 16 {
        seq![hex_digit(n)]
    } else {
        hex_of(n / 16).push(hex_digit(n % 16))
    }
}

pub fn hex_digit_char(d: u64) -> (r: char)
    requires
        d < 16,
    ensures
        r == hex_digit(d as int),
{
    if d < 10 {
        dec_digit_char(d)
    } else if d == 10 {
        'a'
    } else if d == 11 {
        'b'
    } else if d == 12 {
        'c'
    } else if d == 13 {
        'd'
    } else if d == 14 {
        'e'
    } else {
        'f'
    }
}

/// The lower-case hexadecimal representation of `n`.
pub fn u64_to_hex_string(n: u64) -> (r: String)
    ensures
        r@ == hex_of(n as int),
    decreases n,
{
    if n < 16 {
        let mut s = String::new();
        push_char(&mut s, hex_digit_char(n));
        assert(s@ =~= hex_of(n as int));
        s
    } else {
        let mut s = u64_to_hex_string(n / 16);
        push_char(&mut s, hex_digit_char(n % 16));
        s
    }
}

} // verus!
