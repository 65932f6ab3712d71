//! Character-level text scanning: lower-casing, substring containment, prefix
//! and suffix tests over `Vec<char>`, and decimal formatting of counters, with
//! `Seq<char>` as the mathematical model.
//!
//! Workflow files, commit messages and detail strings are treated as plain
//! sequences of characters; every detection rule in the evaluators reduces to
//! the spec functions defined here.

use vstd::prelude::*;

verus! {

/// ASCII lower-casing of one character; everything outside `A..=Z` is kept.
pub open spec fn lower_char(c: char) -> char {
    if 'A' <= c && c <= 'Z' {
        (((c as u8) + 32) as u8) as char
    } else {
        c
    }
}

/// ASCII lower-casing of a whole character sequence.
pub open spec fn lower_seq(s: Seq<char>) -> Seq<char> {
    s.map_values(|c: char| lower_char(c))
}

/// The needle `n` occurs in `h` starting exactly at index `i`.
pub open spec fn occurs_at(h: Seq<char>, n: Seq<char>, i: int) -> bool {
    0 <= i && i + n.len() <= h.len() && h.subrange(i, i + n.len()) == n
}

/// The needle `n` occurs somewhere in `h` (every text contains the empty one).
pub open spec fn contains_seq(h: Seq<char>, n: Seq<char>) -> bool {
    exists|i: int| occurs_at(h, n, i)
}

/// `s` begins with `p`.
pub open spec fn starts_with(s: Seq<char>, p: Seq<char>) -> bool {
    occurs_at(s, p, 0)
}

/// `s` ends with `p`.
pub open spec fn ends_with(s: Seq<char>, p: Seq<char>) -> bool {
    occurs_at(s, p, s.len() - p.len())
}

/// Index of the first occurrence of `c` in `s`, or `s.len()` when absent.
pub open spec fn index_of_char(s: Seq<char>, c: char) -> int
    decreases s.len(),
{
    if s.len() == 0 {
        0
    } else if s[0] == c {
        0
    } else {
        1 + index_of_char(s.drop_first(), c)
    }
}

/// What `index_of_char` returns: the first position of `c`, or the length.
pub proof fn lemma_index_of_char(s: Seq<char>, c: char)
    ensures
        0 <= index_of_char(s, c) <= s.len(),
        forall|j: int| 0 <= j < index_of_char(s, c) ==> s[j] != c,
        index_of_char(s, c) < s.len() ==> s[index_of_char(s, c)] == c,
    decreases s.len(),
{
    if s.len() > 0 && s[0] != c {
        lemma_index_of_char(s.drop_first(), c);
        assert forall|j: int| 0 <= j < index_of_char(s, c) implies s[j] != c by {
            if j > 0 {
                assert(s.drop_first()[j - 1] != c);
            }
        }
    }
}

/// A position with no earlier hit and a hit (or the end) at itself is the index.
pub proof fn lemma_index_of_char_unique(s: Seq<char>, c: char, k: int)
    requires
        0 <= k <= s.len(),
        forall|j: int| 0 <= j < k ==> s[j] != c,
        k < s.len() ==> s[k] == c,
    ensures
        index_of_char(s, c) == k,
{
    lemma_index_of_char(s, c);
    let i = index_of_char(s, c);
    if i < k {
        assert(s[i] != c);
    }
    if k < i {
        assert(s[k] != c);
    }
}

/// The first line of a message: everything before the first newline.
pub open spec fn first_line(s: Seq<char>) -> Seq<char> {
    s.subrange(0, index_of_char(s, '\n'))
}

/// Whitespace as far as trimming is concerned.
pub open spec fn is_ws(c: char) -> bool {
    c == ' ' || c == '\t' || c == '\n' || c == '\r'
}

/// Whether `c` counts as whitespace for trimming.
pub fn ws_char(c: char) -> (r: bool)
    ensures
        r == is_ws(c),
{
    c == ' ' || c == '\t' || c == '\n' || c == '\r'
}

/// `s` without its leading whitespace.
pub open spec fn trim_front(s: Seq<char>) -> Seq<char>
    decreases s.len(),
{
    if s.len() > 0 && is_ws(s[0]) {
        trim_front(s.drop_first())
    } else {
        s
    }
}

/// `s` without its trailing whitespace.
pub open spec fn trim_back(s: Seq<char>) -> Seq<char>
    decreases s.len(),
{
    if s.len() > 0 && is_ws(s.last()) {
        trim_back(s.drop_last())
    } else {
        s
    }
}

/// `s` without any trailing copies of the character `c`.
pub open spec fn strip_trailing_char(s: Seq<char>, c: char) -> Seq<char>
    decreases s.len(),
{
    if s.len() > 0 && s.last() == c {
        strip_trailing_char(s.drop_last(), c)
    } else {
        s
    }
}

/// `s` without any trailing copies of the suffix `suf`.
pub open spec fn strip_suffix_repeat(s: Seq<char>, suf: Seq<char>) -> Seq<char>
    decreases s.len(),
{
    if suf.len() >= 1 && ends_with(s, suf) {
        strip_suffix_repeat(s.take(s.len() - suf.len()), suf)
    } else {
        s
    }
}

/// Index of the first occurrence of `n` in `h`; meaningful when `n` occurs.
pub open spec fn sub_index(h: Seq<char>, n: Seq<char>) -> int
    decreases h.len(),
{
    if occurs_at(h, n, 0) {
        0
    } else if h.len() == 0 {
        0
    } else {
        1 + sub_index(h.drop_first(), n)
    }
}

/// A first occurrence (one with no earlier occurrence) is the `sub_index`.
pub proof fn lemma_sub_index_unique(h: Seq<char>, n: Seq<char>, k: int)
    requires
        occurs_at(h, n, k),
        forall|j: int| 0 <= j < k ==> !occurs_at(h, n, j),
    ensures
        sub_index(h, n) == k,
    decreases h.len(),
{
    if k > 0 {
        assert(h.len() > 0);
        let t = h.drop_first();
        assert(occurs_at(t, n, k - 1)) by {
            assert(t.subrange(k - 1, k - 1 + n.len()) =~= h.subrange(k, k + n.len()));
        }
        assert forall|j: int| 0 <= j < k - 1 implies !occurs_at(t, n, j) by {
            if occurs_at(t, n, j) {
                assert(h.subrange(j + 1, j + 1 + n.len()) =~= t.subrange(j, j + n.len()));
                assert(occurs_at(h, n, j + 1));
            }
        }
        lemma_sub_index_unique(t, n, k - 1);
    }
}

/// The characters of `v` between `from` and `to`, as their own vector.
pub fn sub_vec(v: &Vec<char>, from: usize, to: usize) -> (r: Vec<char>)
    requires
        from <= to <= v@.len(),
    ensures
        r@ == v@.subrange(from as int, to as int),
{
    let mut r: Vec<char> = Vec::new();
    let mut i: usize = from;
    while i < to
        invariant
            from <= i <= to <= v@.len(),
            r@ == v@.subrange(from as int, i as int),
        decreases to - i,
    {
        r.push(v[i]);
        i = i + 1;
        proof {
            assert(r@ =~= v@.subrange(from as int, i as int));
        }
    }
    r
}

/// The position of the first occurrence of `n` in `h`, if any.
pub fn find_sub(h: &Vec<char>, n: &Vec<char>) -> (r: Option<usize>)
    ensures
        match r {
            Some(i) => contains_seq(h@, n@) && i == sub_index(h@, n@) && occurs_at(
                h@,
                n@,
                i as int,
            ),
            None => !contains_seq(h@, n@),
        },
{
    if n.len() > h.len() {
        proof {
            assert(forall|i: int| !occurs_at(h@, n@, i));
        }
        return None;
    }
    let hl = h.len();
    let last = h.len() - n.len();
    let mut i: usize = 0;
    while i <= last
        invariant
            n@.len() <= h@.len(),
            hl == h@.len(),
            last == h@.len() - n@.len(),
            i <= last + 1,
            forall|k: int| 0 <= k < i ==> !occurs_at(h@, n@, k),
        decreases last + 1 - i,
    {
        if match_at(h, n, i) {
            proof {
                lemma_sub_index_unique(h@, n@, i as int);
            }
            return Some(i);
        }
        if i == last {
            proof {
                assert(forall|k: int| occurs_at(h@, n@, k) ==> 0 <= k <= last);
            }
            return None;
        }
        i = i + 1;
    }
    proof {
        assert(forall|k: int| occurs_at(h@, n@, k) ==> 0 <= k <= last);
    }
    None
}

/// The decimal digit `d` as a character; meaningful for `d < 10`.
pub open spec fn digit_char(d: int) -> char {
    ((48 + d) as u8) as char
}

/// The decimal rendering of a non-negative number, most significant digit first.
pub open spec fn dec_str(n: int) -> Seq<char>
    decreases n,
{
    if n < 10 {
        seq![digit_char(n)]
    } else {
        dec_str(n / 10) + seq![digit_char(n % 10)]
    }
}

/// Collects the characters of a string slice into a vector.
pub fn chars_of(s: &str) -> (v: Vec<char>)
    ensures
        v@ == s@,
{
    let n = s.unicode_len();
    let mut v: Vec<char> = Vec::new();
    let mut i: usize = 0;
    while i < n
        invariant
            i <= n,
            n == s@.len(),
            v@ == s@.subrange(0, i as int),
        decreases n - i,
    {
        v.push(s.get_char(i));
        i = i + 1;
        proof {
            assert(v@ =~= s@.subrange(0, i as int));
        }
    }
    proof {
        assert(v@ =~= s@);
    }
    v
}

/// ASCII lower-casing, character by character.
pub fn lower_chars(s: &Vec<char>) -> (r: Vec<char>)
    ensures
        r@ == lower_seq(s@),
{
    let mut r: Vec<char> = Vec::new();
    let mut i: usize = 0;
    while i < s.len()
        invariant
            i <= s@.len(),
            r@ == lower_seq(s@.subrange(0, i as int)),
        decreases s@.len() - i,
    {
        let c = s[i];
        let lc: char = if 'A' <= c && c <= 'Z' {
            ((c as u8) + 32) as char
        } else {
            c
        };
        r.push(lc);
        i = i + 1;
        proof {
            assert(r@ =~= lower_seq(s@.subrange(0, i as int)));
        }
    }
    proof {
        assert(r@ =~= lower_seq(s@));
    }
    r
}

/// Whether `n` occurs in `h` exactly at index `off`.
pub fn match_at(h: &Vec<char>, n: &Vec<char>, off: usize) -> (b: bool)
    requires
        off + n@.len() <= h@.len(),
    ensures
        b == occurs_at(h@, n@, off as int),
{
    let hl = h.len();
    let mut j: usize = 0;
    while j < n.len()
        invariant
            j <= n@.len(),
            off + n@.len() <= h@.len(),
            hl == h@.len(),
            forall|k: int| 0 <= k < j ==> h@[off + k] == n@[k],
        decreases n@.len() - j,
    {
        if h[off + j] != n[j] {
            proof {
                assert(h@.subrange(off as int, off + n@.len())[j as int] != n@[j as int]);
            }
            return false;
        }
        j = j + 1;
    }
    proof {
        assert(h@.subrange(off as int, off + n@.len()) =~= n@);
    }
    true
}

/// Whether `n` occurs anywhere in `h`.
pub fn contains_chars(h: &Vec<char>, n: &Vec<char>) -> (b: bool)
    ensures
        b == contains_seq(h@, n@),
{
    if n.len() == 0 {
        proof {
            assert(h@.subrange(0, 0) =~= n@);
            assert(occurs_at(h@, n@, 0));
        }
        return true;
    }
    if n.len() > h.len() {
        proof {
            assert(forall|i: int| !occurs_at(h@, n@, i));
        }
        return false;
    }
    let hl = h.len();
    let last = h.len() - n.len();
    let mut i: usize = 0;
    while i <= last
        invariant
            1 <= n@.len(),
            n@.len() <= h@.len(),
            hl == h@.len(),
            last == h@.len() - n@.len(),
            i <= last + 1,
            forall|k: int| 0 <= k < i ==> !occurs_at(h@, n@, k),
        decreases last + 1 - i,
    {
        if match_at(h, n, i) {
            return true;
        }
        i = i + 1;
    }
    proof {
        assert(forall|k: int| occurs_at(h@, n@, k) ==> 0 <= k <= last);
    }
    false
}

/// Whether the literal `lit` occurs anywhere in `h`.
pub fn contains_lit(h: &Vec<char>, lit: &str) -> (b: bool)
    ensures
        b == contains_seq(h@, lit@),
{
    let n = chars_of(lit);
    contains_chars(h, &n)
}

/// Whether `v` continues with the literal `lit` at position `off`.
pub fn starts_with_lit_at(v: &Vec<char>, off: usize, lit: &str) -> (b: bool)
    requires
        off <= v@.len(),
    ensures
        b == starts_with(v@.skip(off as int), lit@),
{
    let n = chars_of(lit);
    if n.len() > v.len() - off {
        return false;
    }
    let b = match_at(v, &n, off);
    proof {
        if b {
            assert(v@.skip(off as int).subrange(0, n@.len() as int) =~= v@.subrange(
                off as int,
                off + n@.len(),
            ));
        } else {
            if starts_with(v@.skip(off as int), n@) {
                assert(v@.subrange(off as int, off + n@.len()) =~= v@.skip(
                    off as int,
                ).subrange(0, n@.len() as int));
            }
        }
    }
    b
}

/// Whether `v` ends with the literal `lit`.
pub fn ends_with_lit(v: &Vec<char>, lit: &str) -> (b: bool)
    ensures
        b == ends_with(v@, lit@),
{
    let n = chars_of(lit);
    if n.len() > v.len() {
        return false;
    }
    match_at(v, &n, v.len() - n.len())
}

/// The position of the first `c` at or after `off`, relative to `off`;
/// the remaining length when `c` does not occur there.
pub fn find_char_from(v: &Vec<char>, off: usize, c: char) -> (r: usize)
    requires
        off <= v@.len(),
    ensures
        r == index_of_char(v@.skip(off as int), c),
{
    let ghost rest = v@.skip(off as int);
    let mut i: usize = off;
    while i < v.len()
        invariant
            off <= i <= v@.len(),
            rest == v@.skip(off as int),
            forall|j: int| 0 <= j < i - off ==> rest[j] != c,
        decreases v@.len() - i,
    {
        if v[i] == c {
            proof {
                lemma_index_of_char_unique(rest, c, i - off);
            }
            return i - off;
        }
        i = i + 1;
    }
    proof {
        lemma_index_of_char_unique(rest, c, rest.len() as int);
    }
    v.len() - off
}

/// The decimal digit `d` as a one-character string slice.
pub fn digit_lit(d: u64) -> (r: &'static str)
    requires
        d < 10,
    ensures
        r@ == seq![digit_char(d as int)],
{
    let r: &'static str = if d == 0 {
        "0"
    } else if d == 1 {
        "1"
    } else if d == 2 {
        "2"
    } else if d == 3 {
        "3"
    } else if d == 4 {
        "4"
    } else if d == 5 {
        "5"
    } else if d == 6 {
        "6"
    } else if d == 7 {
        "7"
    } else if d == 8 {
        "8"
    } else {
        "9"
    };
    proof {
        reveal_strlit("0");
        reveal_strlit("1");
        reveal_strlit("2");
        reveal_strlit("3");
        reveal_strlit("4");
        reveal_strlit("5");
        reveal_strlit("6");
        reveal_strlit("7");
        reveal_strlit("8");
        reveal_strlit("9");
        assert(r@ =~= seq![digit_char(d as int)]);
    }
    r
}

/// Appends the decimal rendering of `n` to `out`.
pub fn append_dec(out: &mut String, n: u64)
    ensures
        final(out)@ == old(out)@ + dec_str(n as int),
    decreases n,
{
    if n < 10 {
        out.append(digit_lit(n));
    } else {
        append_dec(out, n / 10);
        out.append(digit_lit(n % 10));
        proof {
            assert(old(out)@ + dec_str(n as int / 10) + seq![digit_char(n as int % 10)] =~= old(
                out,
            )@ + dec_str(n as int));
        }
    }
}

/// The decimal rendering of `n` as an owned string.
pub fn dec_string(n: u64) -> (r: String)
    ensures
        r@ == dec_str(n as int),
{
    let mut s = String::new();
    append_dec(&mut s, n);
    proof {
        assert(Seq::<char>::empty() + dec_str(n as int) =~= dec_str(n as int));
    }
    s
}

/// Whether two string slices hold the same characters.
pub fn str_eq(a: &str, b: &str) -> (r: bool)
    ensures
        r == (a@ == b@),
{
    let sa = String::from_str(a);
    let sb = String::from_str(b);
    sa == sb
}

} // verus!
