//! Character-level string utilities with their specifications.

use vstd::prelude::*;

verus! {

/// The Unicode `White_Space` property.
pub open spec fn is_ws(c: char) -> bool {
    let n = c as u32;
    ||| 0x9 <= n <= 0xD
    ||| n == 0x20
    ||| n == 0x85
    ||| n == 0xA0
    ||| n == 0x1680
    ||| 0x2000 <= n <= 0x200A
    ||| n == 0x2028
    ||| n == 0x2029
    ||| n == 0x202F
    ||| n == 0x205F
    ||| n == 0x3000
}

/// Whether `c` has the Unicode `White_Space` property, which is what
/// `char::is_whitespace` answers.
pub(crate) fn char_is_whitespace(c: char) -> (r: bool)
    ensures
        r == is_ws(c),
{
    let n = c as u32;
    (0x9 <= n && n <= 0xD) || n == 0x20 || n == 0x85 || n == 0xA0 || n == 0x1680
        || (0x2000 <= n && n <= 0x200A) || n == 0x2028 || n == 0x2029 || n == 0x202F
        || n == 0x205F || n == 0x3000
}

/// Calls `String::push`, which appends one character.
#[verifier::external_body]
pub(crate) fn push_char(s: &mut String, c: char)
    ensures
        final(s)@ == old(s)@.push(c),
{
    s.push(c)
}

/// The lower-case form of `s` that `str::to_lowercase` gives (Unicode case
/// mapping).
pub uninterp spec fn lowercase(s: Seq<char>) -> Seq<char>;

/// Calls `str::to_lowercase` of std: the lower-case form of `s` under the
/// Unicode case mapping, named here rather than written out.
#[verifier::external_body]
pub(crate) fn to_lowercase(s: &str) -> (r: String)
    ensures
        r@ == lowercase(s@),
{
    s.to_lowercase()
}

/// The characters of `s`, in order.
pub fn chars_of(s: &str) -> (v: Vec<char>)
    ensures
        v@ == s@,
{
    let n = s.unicode_len();
    let mut v: Vec<char> = Vec::new();
    let mut i: usize = 0;
    while i < n
        invariant
            n == s@.len(),
            i <= n,
            v@ == s@.take(i as int),
        decreases n - i,
    {
        v.push(s.get_char(i));
        i = i + 1;
        assert(v@ =~= s@.take(i as int));
    }
    assert(v@ =~= s@);
    v
}

/// A `String` holding exactly the characters of `v`.
pub fn string_from_chars(v: &Vec<char>) -> (s: String)
    ensures
        s@ == v@,
{
    let mut s = String::new();
    let mut i: usize = 0;
    while i < v.len()
        invariant
            i <= v.len(),
            s@ == v@.take(i as int),
        decreases v.len() - i,
    {
        push_char(&mut s, v[i]);
        i = i + 1;
        assert(s@ =~= v@.take(i as int));
    }
    assert(v@.take(v.len() as int) =~= v@);
    s
}


/// `s` without its leading whitespace.
pub open spec fn trim_start_ws(s: Seq<char>) -> Seq<char>
    decreases s.len(),
{
    if s.len() > 0 && is_ws(s[0]) {
        trim_start_ws(s.drop_first())
    } else {
        s
    }
}

/// `s` without its trailing whitespace.
pub open spec fn trim_end_ws(s: Seq<char>) -> Seq<char>
    decreases s.len(),
{
    if s.len() > 0 && is_ws(s.last()) {
        trim_end_ws(s.drop_last())
    } else {
        s
    }
}

/// `s` without leading and trailing whitespace (what `str::trim` gives).
pub open spec fn trim_ws(s: Seq<char>) -> Seq<char> {
    trim_end_ws(trim_start_ws(s))
}

/// `s` with every trailing occurrence of `c` removed.
pub open spec fn trim_end_char(s: Seq<char>, c: char) -> Seq<char>
    decreases s.len(),
{
    if s.len() > 0 && s.last() == c {
        trim_end_char(s.drop_last(), c)
    } else {
        s
    }
}

/// Whether `s` ends with `suf`.
pub open spec fn ends_with(s: Seq<char>, suf: Seq<char>) -> bool {
    suf.len() <= s.len() && s.subrange(s.len() - suf.len(), s.len() as int) == suf
}

/// Whether `s` starts with `pre`.
pub open spec fn starts_with(s: Seq<char>, pre: Seq<char>) -> bool {
    pre.len() <= s.len() && s.take(pre.len() as int) == pre
}

/// `s` with every trailing repetition of the non-empty `suf` removed.
pub open spec fn trim_end_suffix(s: Seq<char>, suf: Seq<char>) -> Seq<char>
    decreases s.len(),
{
    if suf.len() > 0 && ends_with(s, suf) {
        trim_end_suffix(s.take(s.len() - suf.len()), suf)
    } else {
        s
    }
}

/// Whether two strings hold the same characters.
pub fn str_eq(a: &str, b: &str) -> (r: bool)
    ensures
        r == (a@ == b@),
{
    let va = chars_of(a);
    let vb = chars_of(b);
    seq_eq(&va, &vb)
}

/// Whether two character vectors are equal.
pub fn seq_eq(a: &Vec<char>, b: &Vec<char>) -> (r: bool)
    ensures
        r == (a@ == b@),
{
    if a.len() != b.len() {
        return false;
    }
    let mut i: usize = 0;
    while i < a.len()
        invariant
            a.len() == b.len(),
            i <= a.len(),
            forall|j: int| 0 <= j < i ==> a@[j] == b@[j],
        decreases a.len() - i,
    {
        if a[i] != b[i] {
            return false;
        }
        i = i + 1;
    }
    assert(a@ =~= b@);
    true
}

/// Whether `s` starts with the characters of `pre`.
pub fn vec_starts_with(s: &Vec<char>, pre: &Vec<char>) -> (r: bool)
    ensures
        r == starts_with(s@, pre@),
{
    if pre.len() > s.len() {
        return false;
    }
    let mut i: usize = 0;
    while i < pre.len()
        invariant
            pre.len() <= s.len(),
            i <= pre.len(),
            forall|j: int| 0 <= j < i ==> s@[j] == pre@[j],
        decreases pre.len() - i,
    {
        if s[i] != pre[i] {
            assert(s@.take(pre.len() as int)[i as int] != pre@[i as int]);
            return false;
        }
        i = i + 1;
    }
    assert(s@.take(pre.len() as int) =~= pre@);
    true
}

/// Whether `s` ends with the characters of `suf`.
pub fn vec_ends_with(s: &Vec<char>, suf: &Vec<char>) -> (r: bool)
    ensures
        r == ends_with(s@, suf@),
{
    if suf.len() > s.len() {
        return false;
    }
    let off = s.len() - suf.len();
    let mut i: usize = 0;
    while i < suf.len()
        invariant
            suf.len() <= s.len(),
            off == s.len() - suf.len(),
            i <= suf.len(),
            forall|j: int| 0 <= j < i ==> s@[off + j] == suf@[j],
        decreases suf.len() - i,
    {
        if s[off + i] != suf[i] {
            assert(s@.subrange(off as int, s.len() as int)[i as int] != suf@[i as int]);
            return false;
        }
        i = i + 1;
    }
    assert(s@.subrange(off as int, s.len() as int) =~= suf@);
    true
}

/// The first `n` characters of `v`.
pub fn vec_take(v: &Vec<char>, n: usize) -> (r: Vec<char>)
    requires
        n <= v.len(),
    ensures
        r@ == v@.take(n as int),
{
    let mut r: Vec<char> = Vec::new();
    let mut i: usize = 0;
    while i < n
        invariant
            n <= v.len(),
            i <= n,
            r@ == v@.take(i as int),
        decreases n - i,
    {
        r.push(v[i]);
        i = i + 1;
        assert(r@ =~= v@.take(i as int));
    }
    r
}

/// The characters of `v` from index `from` to index `to`.
pub fn vec_slice(v: &Vec<char>, from: usize, to: usize) -> (r: Vec<char>)
    requires
        from <= to <= v.len(),
    ensures
        r@ == v@.subrange(from as int, to as int),
{
    let mut r: Vec<char> = Vec::new();
    let mut i: usize = from;
    while i < to
        invariant
            from <= i <= to <= v.len(),
            r@ == v@.subrange(from as int, i as int),
        decreases to - i,
    {
        r.push(v[i]);
        i = i + 1;
        assert(r@ =~= v@.subrange(from as int, i as int));
    }
    r
}

/// Appends the characters of `b` to `a`.
pub fn vec_append(a: &mut Vec<char>, b: &Vec<char>)
    ensures
        final(a)@ == old(a)@ + b@,
{
    let mut i: usize = 0;
    while i < b.len()
        invariant
            i <= b.len(),
            a@ == old(a)@ + b@.take(i as int),
        decreases b.len() - i,
    {
        a.push(b[i]);
        i = i + 1;
        assert(a@ =~= old(a)@ + b@.take(i as int));
    }
    assert(b@.take(b.len() as int) =~= b@);
}

/// Appends the characters of `b` to `a`.
pub fn vec_append_str(a: &mut Vec<char>, b: &str)
    ensures
        final(a)@ == old(a)@ + b@,
{
    let vb = chars_of(b);
    vec_append(a, &vb);
}

/// `s` with leading and trailing whitespace removed, as `str::trim` does.
pub fn trim(s: &Vec<char>) -> (r: Vec<char>)
    ensures
        r@ == trim_ws(s@),
{
    let mut lo: usize = 0;
    assert(s@.skip(0) =~= s@);
    while lo < s.len() && char_is_whitespace(s[lo])
        invariant
            lo <= s.len(),
            trim_start_ws(s@) == trim_start_ws(s@.skip(lo as int)),
        decreases s.len() - lo,
    {
        assert(s@.skip(lo as int).drop_first() =~= s@.skip(lo + 1));
        lo = lo + 1;
    }
    let mut hi: usize = s.len();
    assert(s@.skip(lo as int) =~= s@.subrange(lo as int, hi as int));
    while hi > lo && char_is_whitespace(s[hi - 1])
        invariant
            lo <= hi <= s.len(),
            trim_end_ws(s@.subrange(lo as int, s.len() as int)) == trim_end_ws(s@.subrange(lo as int, hi as int)),
        decreases hi,
    {
        assert(s@.subrange(lo as int, hi as int).drop_last() =~= s@.subrange(lo as int, hi - 1));
        hi = hi - 1;
    }
    assert(s@.skip(lo as int) =~= s@.subrange(lo as int, s.len() as int));
    vec_slice(s, lo, hi)
}

/// `s` with every trailing occurrence of `c` removed.
pub fn trim_end_matches_char(s: &Vec<char>, c: char) -> (r: Vec<char>)
    ensures
        r@ == trim_end_char(s@, c),
{
    let mut hi: usize = s.len();
    assert(s@.take(hi as int) =~= s@);
    while hi > 0 && s[hi - 1] == c
        invariant
            hi <= s.len(),
            trim_end_char(s@, c) == trim_end_char(s@.take(hi as int), c),
        decreases hi,
    {
        assert(s@.take(hi as int).drop_last() =~= s@.take(hi - 1));
        hi = hi - 1;
    }
    vec_take(s, hi)
}

/// `s` with every trailing repetition of `suf` removed.
pub fn trim_end_matches_suffix(s: &Vec<char>, suf: &Vec<char>) -> (r: Vec<char>)
    ensures
        r@ == trim_end_suffix(s@, suf@),
{
    let mut cur = vec_take(s, s.len());
    assert(s@.take(s.len() as int) =~= s@);
    while suf.len() > 0 && vec_ends_with(&cur, suf)
        invariant
            trim_end_suffix(s@, suf@) == trim_end_suffix(cur@, suf@),
        decreases cur.len(),
    {
        cur = vec_take(&cur, cur.len() - suf.len());
    }
    cur
}


/// `s` with every leading repetition of the non-empty `pre` removed.
pub open spec fn trim_start_prefix(s: Seq<char>, pre: Seq<char>) -> Seq<char>
    decreases s.len(),
{
    if pre.len() > 0 && starts_with(s, pre) {
        trim_start_prefix(s.skip(pre.len() as int), pre)
    } else {
        s
    }
}

/// `s` with every leading repetition of `pre` removed.
pub fn trim_start_matches_prefix(s: &Vec<char>, pre: &Vec<char>) -> (r: Vec<char>)
    ensures
        r@ == trim_start_prefix(s@, pre@),
{
    let mut cur = vec_take(s, s.len());
    assert(s@.take(s.len() as int) =~= s@);
    while pre.len() > 0 && vec_starts_with(&cur, pre)
        invariant
            trim_start_prefix(s@, pre@) == trim_start_prefix(cur@, pre@),
        decreases cur.len(),
    {
        cur = vec_slice(&cur, pre.len(), cur.len());
    }
    cur
}


/// The decimal digit for `d`.
pub open spec fn digit_char(d: nat) -> char {
    if d == 0 { '0' } else if d == 1 { '1' } else if d == 2 { '2' } else if d == 3 { '3' }
    else if d == 4 { '4' } else if d == 5 { '5' } else if d == 6 { '6' } else if d == 7 { '7' }
    else if d == 8 { '8' } else { '9' }
}

/// The decimal representation of `n`, without leading zeros.
pub open spec fn decimal(n: nat) -> Seq<char>
    decreases n,
{
    if n < 10 {
        seq![digit_char(n)]
    } else {
        decimal(n / 10) + seq![digit_char(n % 10)]
    }
}

fn digit(d: u64) -> (c: char)
    requires
        d < 10,
    ensures
        c == digit_char(d as nat),
{
    if d == 0 { '0' } else if d == 1 { '1' } else if d == 2 { '2' } else if d == 3 { '3' }
    else if d == 4 { '4' } else if d == 5 { '5' } else if d == 6 { '6' } else if d == 7 { '7' }
    else if d == 8 { '8' } else { '9' }
}

/// The decimal representation of `n`.
pub fn decimal_chars(n: u64) -> (r: Vec<char>)
    ensures
        r@ == decimal(n as nat),
    decreases n,
{
    if n < 10 {
        let mut v: Vec<char> = Vec::new();
        v.push(digit(n));
        v
    } else {
        let mut v = decimal_chars(n / 10);
        v.push(digit(n % 10));
        v
    }
}

/// `"<n> <noun>"`, with an `s` after the noun unless `n` is one.
pub open spec fn counted_noun(n: nat, noun: Seq<char>) -> Seq<char> {
    decimal(n) + " "@ + noun + (if n == 1 { ""@ } else { "s"@ })
}

/// `n` followed by `noun`, pluralised with an `s` unless `n` is one, as the
/// UI writes counts (`1 update`, `3 updates`).
pub fn count_noun(n: u64, noun: &str) -> (r: Vec<char>)
    ensures
        r@ == counted_noun(n as nat, noun@),
{
    let mut v = decimal_chars(n);
    vec_append_str(&mut v, " ");
    vec_append_str(&mut v, noun);
    if n != 1 {
        vec_append_str(&mut v, "s");
    } else {
        proof {
            reveal_strlit("");
        }
        assert(v@ + ""@ =~= v@);
    }
    v
}

} // verus!
