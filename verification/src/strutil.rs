//! Small verified text utilities: character-for-character equality,
//! decimal formatting, ASCII case folding, substring search, trimming.

use vstd::prelude::*;

verus! {

/// Exact character-for-character equality of two string slices.
pub fn str_eq(a: &str, b: &str) -> (r: bool)
    ensures
        r == (a@ == b@),
{
    let alen = a.unicode_len();
    let blen = b.unicode_len();
    if alen != blen {
        return false;
    }
    let mut i: usize = 0;
    while i < alen
        invariant
            0 <= i <= alen,
            alen == a@.len(),
            alen == b@.len(),
            forall|j: int| 0 <= j < i ==> a@[j] == b@[j],
        decreases alen - i,
    {
        if a.get_char(i) != b.get_char(i) {
            return false;
        }
        i = i + 1;
    }
    proof {
        assert(a@ =~= b@);
    }
    true
}

/// Relies on `String::push`: appends exactly one character at the end.
#[verifier::external_body]
pub fn push_char(s: &mut String, c: char)
    ensures
        final(s)@ == old(s)@.push(c),
{
    s.push(c);
}

/// A string holding exactly the given characters, in order.
pub fn chars_to_string(v: &Vec<char>) -> (s: String)
    ensures
        s@ == v@,
{
    let mut s = String::new();
    let mut i: usize = 0;
    while i < v.len()
        invariant
            0 <= i <= v.len(),
            s@ == v@.take(i as int),
        decreases v.len() - i,
    {
        push_char(&mut s, v[i]);
        proof {
            assert(v@.take(i as int).push(v@[i as int]) =~= v@.take(i + 1));
        }
        i = i + 1;
    }
    proof {
        assert(v@.take(v@.len() as int) =~= v@);
    }
    s
}

/// The decimal digit character for a value below ten.
pub open spec fn dec_digit(d: nat) -> char {
    if d == 0 {
        '0'
    } else if d == 1 {
        '1'
    } else if d == 2 {
        '2'
    } else if d == 3 {
        '3'
    } else if d == 4 {
        '4'
    } else if d == 5 {
        '5'
    } else if d == 6 {
        '6'
    } else if d == 7 {
        '7'
    } else if d == 8 {
        '8'
    } else {
        '9'
    }
}

/// The usual decimal rendering of a natural number, without leading
/// zeros (except for zero itself).
pub open spec fn dec_str(n: nat) -> Seq<char>
    decreases n,
{
    if n < 10 {
        seq![dec_digit(n)]
    } else {
        dec_str(n / 10).push(dec_digit(n % 10))
    }
}

fn dec_digit_exec(d: u64) -> (c: char)
    requires
        d < 10,
    ensures
        c == dec_digit(d as nat),
{
    match d {
        0 => '0',
        1 => '1',
        2 => '2',
        3 => '3',
        4 => '4',
        5 => '5',
        6 => '6',
        7 => '7',
        8 => '8',
        _ => '9',
    }
}

/// The decimal rendering of a 64-bit value.
pub fn u64_to_dec(n: u64) -> (s: String)
    ensures
        s@ == dec_str(n as nat),
{
    let mut digits: Vec<char> = Vec::new();
    let mut m: u64 = n;
    proof {
        assert(dec_str(n as nat) + digits@ =~= dec_str(n as nat));
    }
    while m >= 10
        invariant
            dec_str(n as nat) == dec_str(m as nat) + digits@,
        decreases m,
    {
        let ghost pre = digits@;
        let d = m % 10;
        digits.insert(0, dec_digit_exec(d));
        proof {
            assert(digits@ =~= seq![dec_digit(d as nat)] + pre);
            assert(dec_str((m / 10) as nat).push(dec_digit((m % 10) as nat)) + pre =~= dec_str(
                (m / 10) as nat,
            ) + (seq![dec_digit(d as nat)] + pre));
        }
        m = m / 10;
    }
    let ghost pre = digits@;
    digits.insert(0, dec_digit_exec(m));
    proof {
        assert(digits@ =~= seq![dec_digit(m as nat)] + pre);
        assert(dec_str(m as nat) + pre =~= seq![dec_digit(m as nat)] + pre);
    }
    chars_to_string(&digits)
}

/// The decimal rendering of a 32-bit value.
pub fn u32_to_dec(n: u32) -> (s: String)
    ensures
        s@ == dec_str(n as nat),
{
    u64_to_dec(n as u64)
}

/// The decimal rendering of a size.
pub fn usize_to_dec(n: usize) -> (s: String)
    ensures
        s@ == dec_str(n as nat),
{
    u64_to_dec(n as u64)
}

/// ASCII case folding of one character: upper-case letters become
/// lower-case, everything else stays.
pub open spec fn lower_char(c: char) -> char {
    if 'A' <= c && c <= 'Z' {
        (((c as u8) + 32) as char)
    } else {
        c
    }
}

/// ASCII case folding applied to every character.
pub open spec fn lower_seq(s: Seq<char>) -> Seq<char> {
    s.map_values(|c: char| lower_char(c))
}

fn lower_char_exec(c: char) -> (r: char)
    ensures
        r == lower_char(c),
{
    if 'A' <= c && c <= 'Z' {
        ((c as u8) + 32) as char
    } else {
        c
    }
}

/// Whether the needle occurs in the haystack starting at offset `k`.
pub open spec fn occurs_at(h: Seq<char>, n: Seq<char>, k: int) -> bool {
    0 <= k && k + n.len() <= h.len() && h.subrange(k, k + n.len()) == n
}

/// Whether the needle occurs anywhere in the haystack.
pub open spec fn seq_contains_sub(h: Seq<char>, n: Seq<char>) -> bool {
    exists|k: int| occurs_at(h, n, k)
}

fn lower_match_at(h: &str, n: &str, k: usize) -> (r: bool)
    requires
        k + n@.len() <= h@.len(),
    ensures
        r == occurs_at(lower_seq(h@), n@, k as int),
{
    let hl = h.unicode_len();
    let nl = n.unicode_len();
    let mut j: usize = 0;
    while j < nl
        invariant
            0 <= j <= nl,
            hl == h@.len(),
            nl == n@.len(),
            k + nl <= hl,
            forall|t: int| 0 <= t < j ==> lower_seq(h@)[k + t] == n@[t],
        decreases nl - j,
    {
        if lower_char_exec(h.get_char(k + j)) != n.get_char(j) {
            proof {
                assert(!occurs_at(lower_seq(h@), n@, k as int)) by {
                    if occurs_at(lower_seq(h@), n@, k as int) {
                        assert(lower_seq(h@).subrange(k as int, k + n@.len())[j as int]
                            == n@[j as int]);
                    }
                }
            }
            return false;
        }
        j = j + 1;
    }
    proof {
        assert(lower_seq(h@).subrange(k as int, k + n@.len()) =~= n@);
    }
    true
}

/// Whether the needle occurs in the case-folded haystack. The needle is
/// taken as already folded.
pub fn contains_lower(h: &str, n: &str) -> (r: bool)
    ensures
        r == seq_contains_sub(lower_seq(h@), n@),
{
    let hl = h.unicode_len();
    let nl = n.unicode_len();
    if nl > hl {
        proof {
            assert forall|k: int| !occurs_at(lower_seq(h@), n@, k) by {}
        }
        return false;
    }
    if nl == 0 {
        proof {
            assert(occurs_at(lower_seq(h@), n@, 0)) by {
                assert(lower_seq(h@).subrange(0, 0) =~= n@);
            }
        }
        return true;
    }
    let mut k: usize = 0;
    while k <= hl - nl
        invariant
            0 <= k <= hl - nl + 1,
            1 <= nl <= hl,
            hl == h@.len(),
            nl == n@.len(),
            forall|t: int| 0 <= t < k ==> !occurs_at(lower_seq(h@), n@, t),
        decreases hl - nl - k + 1,
    {
        if lower_match_at(h, n, k) {
            return true;
        }
        k = k + 1;
    }
    proof {
        assert forall|t: int| !occurs_at(lower_seq(h@), n@, t) by {
            if t >= k {
                assert(t + n@.len() > h@.len());
            }
        }
    }
    false
}

/// An ASCII whitespace character.
pub open spec fn is_space_char(c: char) -> bool {
    c == ' ' || c == '\t' || c == '\n' || c == '\r'
}

/// The sequence without its leading whitespace.
pub open spec fn trim_front(s: Seq<char>) -> Seq<char>
    decreases s.len(),
{
    if s.len() > 0 && is_space_char(s[0]) {
        trim_front(s.drop_first())
    } else {
        s
    }
}

/// The sequence without its trailing whitespace.
pub open spec fn trim_back(s: Seq<char>) -> Seq<char>
    decreases s.len(),
{
    if s.len() > 0 && is_space_char(s.last()) {
        trim_back(s.drop_last())
    } else {
        s
    }
}

/// The sequence without leading or trailing whitespace.
pub open spec fn trim_spec(s: Seq<char>) -> Seq<char> {
    trim_back(trim_front(s))
}

fn is_space_exec(c: char) -> (r: bool)
    ensures
        r == is_space_char(c),
{
    c == ' ' || c == '\t' || c == '\n' || c == '\r'
}

/// A copy of the text without leading or trailing ASCII whitespace.
pub fn trim_str(s: &str) -> (r: String)
    ensures
        r@ == trim_spec(s@),
{
    let len = s.unicode_len();
    proof {
        assert(s@.subrange(0, len as int) =~= s@);
    }
    let mut start: usize = 0;
    while start < len && is_space_exec(s.get_char(start))
        invariant
            0 <= start <= len,
            len == s@.len(),
            trim_front(s@) == trim_front(s@.subrange(start as int, len as int)),
        decreases len - start,
    {
        proof {
            let sub = s@.subrange(start as int, len as int);
            assert(sub[0] == s@[start as int]);
            assert(sub.drop_first() =~= s@.subrange(start + 1, len as int));
        }
        start = start + 1;
    }
    proof {
        let sub = s@.subrange(start as int, len as int);
        if start < len {
            assert(sub[0] == s@[start as int]);
        }
        assert(trim_front(s@) == sub);
    }
    let mut end: usize = len;
    while end > start && is_space_exec(s.get_char(end - 1))
        invariant
            start <= end <= len,
            len == s@.len(),
            trim_front(s@) == s@.subrange(start as int, len as int),
            trim_back(s@.subrange(start as int, len as int)) == trim_back(
                s@.subrange(start as int, end as int),
            ),
        decreases end,
    {
        proof {
            let sub = s@.subrange(start as int, end as int);
            assert(sub.last() == s@[end - 1]);
            assert(sub.drop_last() =~= s@.subrange(start as int, end - 1));
        }
        end = end - 1;
    }
    proof {
        let sub = s@.subrange(start as int, end as int);
        if end > start {
            assert(sub.last() == s@[end - 1]);
        }
        assert(trim_spec(s@) == sub);
    }
    let piece = s.substring_char(start, end);
    String::from_str(piece)
}

} // verus!
