//! Character and string helpers shared by the protocol parsers.
//!
//! Header names are matched case-insensitively, as HTTP requires; the
//! parsers walk strings character by character and speak about them as
//! `Seq<char>` views.

use vstd::prelude::*;

verus! {

/// Case-insensitive equality of two characters, ASCII letters only.
pub open spec fn chars_eq_ci(a: char, b: char) -> bool {
    a == b || ('A' <= a && a <= 'Z' && b as int == a as int + 32) || ('A' <= b && b <= 'Z'
        && a as int == b as int + 32)
}

/// Case-insensitive equality of two character sequences, ASCII letters only.
pub open spec fn seqs_eq_ci(x: Seq<char>, y: Seq<char>) -> bool {
    x.len() == y.len() && (forall|i: int| 0 <= i < x.len() ==> chars_eq_ci(x[i], y[i]))
}

/// `p` is a prefix of `s`.
pub open spec fn has_prefix(s: Seq<char>, p: Seq<char>) -> bool {
    p.len() <= s.len() && s.subrange(0, p.len() as int) == p
}

/// `sub` occurs in `s` at position `k`.
pub open spec fn occurs_at(s: Seq<char>, sub: Seq<char>, k: int) -> bool {
    0 <= k && k + sub.len() <= s.len() && s.subrange(k, k + sub.len() as int) == sub
}

/// `sub` occurs somewhere in `s`.
pub open spec fn occurs(s: Seq<char>, sub: Seq<char>) -> bool {
    exists|k: int| occurs_at(s, sub, k)
}

/// The views of a vector of strings.
pub open spec fn strs_view(v: Seq<String>) -> Seq<Seq<char>> {
    v.map_values(|s: String| s@)
}

/// The view of an optional string.
pub open spec fn opt_str_view(o: Option<String>) -> Option<Seq<char>> {
    match o {
        Option::Some(s) => Option::Some(s@),
        Option::None => Option::None,
    }
}

/// The views of a vector of string pairs.
pub open spec fn pairs_view(v: Seq<(String, String)>) -> Seq<(Seq<char>, Seq<char>)> {
    v.map_values(|kv: (String, String)| (kv.0@, kv.1@))
}

fn char_eq_ci(a: char, b: char) -> (r: bool)
    ensures
        r == chars_eq_ci(a, b),
{
    if a == b {
        true
    } else {
        let ai = a as u32;
        let bi = b as u32;
        if ai >= 65 && ai <= 90 && bi == ai + 32 {
            true
        } else {
            bi >= 65 && bi <= 90 && ai == bi + 32
        }
    }
}

/// Plain equality of two string slices.
pub fn str_eq(a: &str, b: &str) -> (r: bool)
    ensures
        r == (a@ == b@),
{
    let x: String = a.to_owned();
    let y: String = b.to_owned();
    x == y
}

/// Case-insensitive equality of two string slices, ASCII letters only.
pub fn str_eq_ci(a: &str, b: &str) -> (r: bool)
    ensures
        r == seqs_eq_ci(a@, b@),
{
    let alen = a.unicode_len();
    let blen = b.unicode_len();
    if alen != blen {
        return false;
    }
    let mut i: usize = 0;
    while i < alen
        invariant
            alen == a@.len(),
            blen == b@.len(),
            alen == blen,
            i <= alen,
            forall|j: int| 0 <= j < i ==> chars_eq_ci(a@[j], b@[j]),
        decreases alen - i,
    {
        if !char_eq_ci(a.get_char(i), b.get_char(i)) {
            return false;
        }
        i = i + 1;
    }
    true
}

/// Whether `prefix` is a prefix of `s`.
pub fn starts_with(s: &str, prefix: &str) -> (r: bool)
    ensures
        r == has_prefix(s@, prefix@),
{
    let plen = prefix.unicode_len();
    let slen = s.unicode_len();
    if plen > slen {
        return false;
    }
    let mut i: usize = 0;
    while i < plen
        invariant
            plen == prefix@.len(),
            slen == s@.len(),
            plen <= slen,
            i <= plen,
            forall|j: int| 0 <= j < i ==> s@[j] == prefix@[j],
        decreases plen - i,
    {
        if s.get_char(i) != prefix.get_char(i) {
            assert(s@.subrange(0, plen as int)[i as int] != prefix@[i as int]);
            return false;
        }
        i = i + 1;
    }
    assert(s@.subrange(0, plen as int) =~= prefix@);
    true
}

/// First position of `c` in `s` at or after `from`.
pub fn find_char(s: &str, from: usize, c: char) -> (r: Option<usize>)
    requires
        from <= s@.len(),
    ensures
        match r {
            Some(i) => from <= i < s@.len() && s@[i as int] == c && (forall|j: int|
                from <= j < i ==> s@[j] != c),
            None => forall|j: int| from <= j < s@.len() ==> s@[j] != c,
        },
{
    let n = s.unicode_len();
    let mut i: usize = from;
    while i < n
        invariant
            n == s@.len(),
            from <= i <= n,
            forall|j: int| from <= j < i ==> s@[j] != c,
        decreases n - i,
    {
        if s.get_char(i) == c {
            return Some(i);
        }
        i = i + 1;
    }
    None
}

/// Whether `sub` occurs in `s` at position `k`.
fn match_at(s: &str, sub: &str, k: usize) -> (r: bool)
    requires
        k + sub@.len() <= s@.len(),
    ensures
        r == occurs_at(s@, sub@, k as int),
{
    let slen = s.unicode_len();
    let sublen = sub.unicode_len();
    let mut i: usize = 0;
    while i < sublen
        invariant
            slen == s@.len(),
            sublen == sub@.len(),
            k + sublen <= s@.len(),
            i <= sublen,
            forall|j: int| 0 <= j < i ==> s@[k + j] == sub@[j],
        decreases sublen - i,
    {
        if s.get_char(k + i) != sub.get_char(i) {
            assert(s@.subrange(k as int, k + sublen as int)[i as int] != sub@[i as int]);
            return false;
        }
        i = i + 1;
    }
    assert(s@.subrange(k as int, k + sublen as int) =~= sub@);
    true
}

/// Whether `sub` occurs anywhere in `s`.
pub fn contains_str(s: &str, sub: &str) -> (r: bool)
    ensures
        r == occurs(s@, sub@),
{
    let slen = s.unicode_len();
    let sublen = sub.unicode_len();
    if sublen > slen {
        return false;
    }
    if sublen == 0 {
        assert(s@.subrange(0, 0) =~= sub@);
        assert(occurs_at(s@, sub@, 0));
        return true;
    }
    let mut k: usize = 0;
    while k <= slen - sublen
        invariant
            slen == s@.len(),
            sublen == sub@.len(),
            1 <= sublen <= slen,
            k <= slen - sublen + 1,
            forall|p: int| 0 <= p < k ==> !occurs_at(s@, sub@, p),
        decreases slen - sublen + 1 - k,
    {
        if match_at(s, sub, k) {
            return true;
        }
        k = k + 1;
    }
    assert forall|p: int| occurs_at(s@, sub@, p) implies false by {
        assert(p < k);
    }
    false
}

/// Relies on `String::push`: appends exactly one character.
#[verifier::external_body]
pub(crate) fn string_push(s: &mut String, c: char)
    ensures
        final(s)@ == old(s)@.push(c),
{
    s.push(c);
}

/// The decimal digit for a value below ten.
pub open spec fn dec_char(n: u8) -> char {
    if n == 0 {
        '0'
    } else if n == 1 {
        '1'
    } else if n == 2 {
        '2'
    } else if n == 3 {
        '3'
    } else if n == 4 {
        '4'
    } else if n == 5 {
        '5'
    } else if n == 6 {
        '6'
    } else if n == 7 {
        '7'
    } else if n == 8 {
        '8'
    } else {
        '9'
    }
}

/// The decimal rendering of a number, without leading zeros.
pub open spec fn spec_dec(n: nat) -> Seq<char>
    decreases n,
{
    if n < 10 {
        seq![dec_char(n as u8)]
    } else {
        spec_dec(n / 10).push(dec_char((n % 10) as u8))
    }
}

fn dec_char_of(n: u8) -> (c: char)
    requires
        n < 10,
    ensures
        c == dec_char(n),
{
    match n {
        0 => '0',
        1 => '1',
        2 => '2',
        3 => '3',
        4 => '4',
        5 => '5',
        6 => '6',
        7 => '7',
        8 => '8',
        _ => '9',
    }
}

/// The decimal rendering of a number.
pub fn u32_to_dec(n: u32) -> (r: String)
    ensures
        r@ == spec_dec(n as nat),
    decreases n,
{
    if n < 10 {
        let mut s = String::new();
        string_push(&mut s, dec_char_of(n as u8));
        assert(s@ =~= seq![dec_char(n as u8)]);
        s
    } else {
        let mut s = u32_to_dec(n / 10);
        string_push(&mut s, dec_char_of((n % 10) as u8));
        s
    }
}

} // verus!
