//! Character-level string helpers with exact specifications.
//!
//! Strings are modelled by their views, `Seq<char>`; the spec functions here
//! say what each helper computes in terms of those sequences.

use vstd::prelude::*;
use crate::report::views;

verus! {

/// Appends one character to a string (std `String::push`).
#[verifier::external_body]
pub(crate) fn push_char(s: &mut String, c: char)
    ensures
        final(s)@ == old(s)@.push(c),
{
    s.push(c);
}

/// The characters of a string slice, in order.
pub fn to_chars(s: &str) -> (v: Vec<char>)
    ensures
        v@ == s@,
{
    let mut v: Vec<char> = Vec::new();
    for c in it: s.chars()
        invariant
            v@ == it.seq().take(it.index()),
    {
        v.push(c);
    }
    v
}

/// A string made of the given characters.
pub fn from_chars(v: &Vec<char>) -> (s: String)
    ensures
        s@ == v@,
{
    let mut s = String::new();
    let n = v.len();
    for i in 0..n
        invariant
            n == v.len(),
            s@ == v@.take(i as int),
    {
        push_char(&mut s, v[i]);
        assert(v@.take(i + 1) == v@.take(i as int).push(v@[i as int]));
    }
    assert(v@.take(n as int) == v@);
    s
}

/// Whether two string slices hold the same characters.
pub fn str_eq(a: &str, b: &str) -> (r: bool)
    ensures
        r == (a@ == b@),
{
    let av = to_chars(a);
    let bv = to_chars(b);
    if av.len() != bv.len() {
        return false;
    }
    let n = av.len();
    for i in 0..n
        invariant
            n == av.len(),
            n == bv.len(),
            av@ == a@,
            bv@ == b@,
            forall|j: int| 0 <= j < i ==> av@[j] == bv@[j],
    {
        if av[i] != bv[i] {
            assert(a@[i as int] != b@[i as int]);
            return false;
        }
    }
    assert(av@ =~= bv@);
    true
}

/// `needle` occurs in `hay` at position `i`.
pub open spec fn occurs_at(hay: Seq<char>, needle: Seq<char>, i: int) -> bool {
    0 <= i && i + needle.len() <= hay.len() && hay.subrange(i, i + needle.len()) == needle
}

/// `needle` occurs somewhere in `hay` (`str::contains` with a string pattern).
pub open spec fn seq_contains(hay: Seq<char>, needle: Seq<char>) -> bool {
    exists|i: int| occurs_at(hay, needle, i)
}

/// `s` begins with `p`.
pub open spec fn seq_starts_with(s: Seq<char>, p: Seq<char>) -> bool {
    p.len() <= s.len() && s.subrange(0, p.len() as int) == p
}

fn occurs_at_exec(hay: &Vec<char>, needle: &Vec<char>, i: usize) -> (r: bool)
    requires
        i + needle.len() <= hay.len(),
    ensures
        r == occurs_at(hay@, needle@, i as int),
{
    let m = needle.len();
    for j in 0..m
        invariant
            m == needle.len(),
            i + m <= hay.len(),
            forall|k: int| 0 <= k < j ==> hay@[i + k] == needle@[k],
    {
        if hay[i + j] != needle[j] {
            assert(hay@.subrange(i as int, i + m)[j as int] != needle@[j as int]);
            return false;
        }
    }
    assert(hay@.subrange(i as int, i + m) =~= needle@);
    true
}

/// Whether `needle` occurs in `hay`, both given as characters.
pub fn chars_contain(hay: &Vec<char>, needle: &Vec<char>) -> (r: bool)
    ensures
        r == seq_contains(hay@, needle@),
{
    if needle.len() > hay.len() {
        return false;
    }
    if needle.len() == 0 {
        assert(hay@.subrange(0, 0) =~= needle@);
        assert(occurs_at(hay@, needle@, 0));
        return true;
    }
    let last = hay.len() - needle.len();
    let mut i: usize = 0;
    while i <= last
        invariant
            last == hay.len() - needle.len(),
            0 < needle.len() <= hay.len(),
            forall|k: int| 0 <= k < i ==> !occurs_at(hay@, needle@, k),
        decreases last + 1 - i,
    {
        if occurs_at_exec(hay, needle, i) {
            return true;
        }
        i = i + 1;
    }
    false
}

/// Whether `needle` occurs in `hay` (`str::contains`).
pub fn contains(hay: &str, needle: &str) -> (r: bool)
    ensures
        r == seq_contains(hay@, needle@),
{
    let h = to_chars(hay);
    let n = to_chars(needle);
    chars_contain(&h, &n)
}

/// Whether `s` begins with `p` (`str::starts_with`).
pub fn starts_with(s: &str, p: &str) -> (r: bool)
    ensures
        r == seq_starts_with(s@, p@),
{
    let sv = to_chars(s);
    let pv = to_chars(p);
    if pv.len() > sv.len() {
        return false;
    }
    occurs_at_exec(&sv, &pv, 0)
}

/// ASCII lowercase of one character.
pub open spec fn lower_char(c: char) -> char {
    if 'A' <= c && c <= 'Z' {
        ((c as u32) + 32) as char
    } else {
        c
    }
}

/// ASCII lowercase of a character sequence (`str::to_ascii_lowercase`).
pub open spec fn ascii_lowercase(s: Seq<char>) -> Seq<char> {
    Seq::new(s.len(), |i: int| lower_char(s[i]))
}

/// ASCII lowercase of one character (`char::to_ascii_lowercase`).
pub fn lower_char_exec(c: char) -> (r: char)
    ensures
        r == lower_char(c),
{
    if 'A' <= c && c <= 'Z' {
        let b = c as u8;
        (b + 32) as char
    } else {
        c
    }
}

/// ASCII lowercase of a string (`str::to_ascii_lowercase`).
pub fn to_ascii_lowercase(s: &str) -> (r: String)
    ensures
        r@ == ascii_lowercase(s@),
{
    let v = to_chars(s);
    let mut out = String::new();
    let n = v.len();
    for i in 0..n
        invariant
            n == v.len(),
            v@ == s@,
            out@ == ascii_lowercase(s@).take(i as int),
    {
        let c = lower_char_exec(v[i]);
        push_char(&mut out, c);
        assert(ascii_lowercase(s@).take(i + 1) == ascii_lowercase(s@).take(i as int).push(c));
    }
    assert(ascii_lowercase(s@).take(n as int) == ascii_lowercase(s@));
    out
}

/// Equality up to ASCII case (`str::eq_ignore_ascii_case`).
pub fn eq_ignore_ascii_case(a: &str, b: &str) -> (r: bool)
    ensures
        r == (ascii_lowercase(a@) == ascii_lowercase(b@)),
{
    let la = to_ascii_lowercase(a);
    let lb = to_ascii_lowercase(b);
    la == lb
}

} // verus!

verus! {

/// Removes every leading occurrence of `p` (`str::trim_start_matches` with a
/// string pattern).
pub open spec fn trim_start_matches_spec(s: Seq<char>, p: Seq<char>) -> Seq<char>
    decreases s.len(),
{
    if p.len() > 0 && seq_starts_with(s, p) {
        trim_start_matches_spec(s.skip(p.len() as int), p)
    } else {
        s
    }
}

/// `str::trim_start_matches` with a string pattern.
pub fn trim_start_matches(s: &str, p: &str) -> (r: String)
    ensures
        r@ == trim_start_matches_spec(s@, p@),
{
    let v = to_chars(s);
    let pv = to_chars(p);
    let n = v.len();
    let m = pv.len();
    let mut i: usize = 0;
    assert(s@.skip(0) =~= s@);
    if m > 0 {
        while m <= n - i && occurs_at_exec(&v, &pv, i)
            invariant
                n == v.len(),
                m == pv.len(),
                m > 0,
                i <= n,
                v@ == s@,
                pv@ == p@,
                trim_start_matches_spec(s@, p@) == trim_start_matches_spec(s@.skip(i as int), p@),
            decreases n - i,
        {
            assert(s@.skip(i as int).subrange(0, m as int) =~= s@.subrange(i as int, i + m));
            assert(s@.skip(i as int).skip(m as int) =~= s@.skip(i + m));
            i = i + m;
        }
        if m <= n - i {
            assert(s@.skip(i as int).subrange(0, m as int) =~= s@.subrange(i as int, i + m));
        }
    }
    let mut out = String::new();
    let mut j: usize = i;
    while j < n
        invariant
            i <= j <= n,
            n == v.len(),
            v@ == s@,
            out@ == s@.subrange(i as int, j as int),
        decreases n - j,
    {
        push_char(&mut out, v[j]);
        assert(s@.subrange(i as int, j + 1) == s@.subrange(i as int, j as int).push(v@[j as int]));
        j = j + 1;
    }
    assert(out@ =~= s@.skip(i as int));
    out
}

/// `Some` of what follows `p` in `s` when `s` begins with `p`.
pub open spec fn strip_prefix_spec(s: Seq<char>, p: Seq<char>) -> Option<Seq<char>> {
    if seq_starts_with(s, p) {
        Some(s.skip(p.len() as int))
    } else {
        None
    }
}

/// `str::strip_prefix` with a string pattern.
pub fn strip_prefix(s: &str, p: &str) -> (r: Option<String>)
    ensures
        match r {
            Some(t) => strip_prefix_spec(s@, p@) == Some(t@),
            None => strip_prefix_spec(s@, p@) is None,
        },
{
    if !starts_with(s, p) {
        return None;
    }
    let v = to_chars(s);
    let m = to_chars(p).len();
    let n = v.len();
    let mut out = String::new();
    let mut j: usize = m;
    while j < n
        invariant
            m <= j <= n,
            n == v.len(),
            v@ == s@,
            m == p@.len(),
            out@ == s@.subrange(m as int, j as int),
        decreases n - j,
    {
        push_char(&mut out, v[j]);
        assert(s@.subrange(m as int, j + 1) == s@.subrange(m as int, j as int).push(v@[j as int]));
        j = j + 1;
    }
    assert(out@ =~= s@.skip(m as int));
    Some(out)
}

/// `s` with every occurrence of `c` removed (`str::replace(c, "")`).
pub open spec fn remove_char_spec(s: Seq<char>, c: char) -> Seq<char>
    decreases s.len(),
{
    if s.len() == 0 {
        s
    } else if s.last() == c {
        remove_char_spec(s.drop_last(), c)
    } else {
        remove_char_spec(s.drop_last(), c).push(s.last())
    }
}

/// `str::replace(c, "")` for a single character `c`.
pub fn remove_char(s: &str, c: char) -> (r: String)
    ensures
        r@ == remove_char_spec(s@, c),
{
    let v = to_chars(s);
    let n = v.len();
    let mut out = String::new();
    for i in 0..n
        invariant
            n == v.len(),
            v@ == s@,
            out@ == remove_char_spec(s@.take(i as int), c),
    {
        assert(s@.take(i + 1).drop_last() =~= s@.take(i as int));
        if v[i] != c {
            push_char(&mut out, v[i]);
        }
    }
    assert(s@.take(n as int) =~= s@);
    out
}

/// `s` padded on the left with spaces to `width` characters, as
/// `format!("{s:>width$}")` does; longer strings are unchanged.
pub open spec fn pad_left_spec(s: Seq<char>, width: nat) -> Seq<char> {
    if s.len() >= width {
        s
    } else {
        Seq::new((width - s.len()) as nat, |i: int| ' ') + s
    }
}

/// `format!("{s:>width$}")`.
pub fn pad_left(s: &str, width: usize) -> (r: String)
    ensures
        r@ == pad_left_spec(s@, width as nat),
{
    let v = to_chars(s);
    let n = v.len();
    let mut out = String::new();
    if n < width {
        let fill = width - n;
        for k in 0..fill
            invariant
                out@ == Seq::new(k as nat, |i: int| ' '),
        {
            push_char(&mut out, ' ');
            assert(out@ =~= Seq::new((k + 1) as nat, |i: int| ' '));
        }
    }
    let ghost pre = out@;
    for i in 0..n
        invariant
            n == v.len(),
            v@ == s@,
            out@ == pre + s@.take(i as int),
    {
        push_char(&mut out, v[i]);
        assert(s@.take(i + 1) == s@.take(i as int).push(v@[i as int]));
        assert(out@ =~= pre + s@.take(i + 1));
    }
    assert(s@.take(n as int) =~= s@);
    assert(out@ =~= pad_left_spec(s@, width as nat));
    out
}

/// The concatenation of two strings.
pub fn concat2(a: &str, b: &str) -> (r: String)
    ensures
        r@ == a@ + b@,
{
    let s = String::from_str(a);
    s.concat(b)
}

/// The concatenation of three strings.
pub fn concat3(a: &str, b: &str, c: &str) -> (r: String)
    ensures
        r@ == a@ + b@ + c@,
{
    let s = String::from_str(a);
    let s = s.concat(b);
    s.concat(c)
}

/// An owned copy of a string slice.
pub fn owned(s: &str) -> (r: String)
    ensures
        r@ == s@,
{
    String::from_str(s)
}

/// The view of an optional string.
pub open spec fn opt_view(o: Option<String>) -> Option<Seq<char>> {
    match o {
        Some(s) => Some(s@),
        None => None,
    }
}

/// Unicode `White_Space` (`char::is_whitespace`).
pub open spec fn is_white_space(c: char) -> bool {
    let u = c as u32;
    (0x09 <= u <= 0x0D) || u == 0x20 || u == 0x85 || u == 0xA0 || u == 0x1680
        || (0x2000 <= u <= 0x200A) || u == 0x2028 || u == 0x2029 || u == 0x202F
        || u == 0x205F || u == 0x3000
}

/// `char::is_whitespace`.
pub fn is_white_space_exec(c: char) -> (r: bool)
    ensures
        r == is_white_space(c),
{
    let u = c as u32;
    (0x09 <= u && u <= 0x0D) || u == 0x20 || u == 0x85 || u == 0xA0 || u == 0x1680
        || (0x2000 <= u && u <= 0x200A) || u == 0x2028 || u == 0x2029 || u == 0x202F
        || u == 0x205F || u == 0x3000
}

/// `s` without leading white space.
pub open spec fn trim_start_spec(s: Seq<char>) -> Seq<char>
    decreases s.len(),
{
    if s.len() > 0 && is_white_space(s[0]) {
        trim_start_spec(s.drop_first())
    } else {
        s
    }
}

/// `s` without trailing white space.
pub open spec fn trim_end_spec(s: Seq<char>) -> Seq<char>
    decreases s.len(),
{
    if s.len() > 0 && is_white_space(s.last()) {
        trim_end_spec(s.drop_last())
    } else {
        s
    }
}

/// `s` without leading and trailing white space (`str::trim`).
pub open spec fn trim_spec(s: Seq<char>) -> Seq<char> {
    trim_end_spec(trim_start_spec(s))
}

/// `str::trim`.
pub fn trim(s: &str) -> (r: String)
    ensures
        r@ == trim_spec(s@),
{
    let v = to_chars(s);
    let n = v.len();
    let mut i: usize = 0;
    assert(s@.subrange(0, n as int) =~= s@);
    while i < n && is_white_space_exec(v[i])
        invariant
            i <= n,
            n == v.len(),
            v@ == s@,
            trim_start_spec(s@) == trim_start_spec(s@.subrange(i as int, n as int)),
        decreases n - i,
    {
        assert(s@.subrange(i as int, n as int).drop_first() =~= s@.subrange(i + 1, n as int));
        i = i + 1;
    }
    let mut j: usize = n;
    while j > i && is_white_space_exec(v[j - 1])
        invariant
            i <= j <= n,
            n == v.len(),
            v@ == s@,
            trim_start_spec(s@) == s@.subrange(i as int, n as int),
            trim_spec(s@) == trim_end_spec(s@.subrange(i as int, j as int)),
        decreases j,
    {
        assert(s@.subrange(i as int, j as int).drop_last() =~= s@.subrange(i as int, j - 1));
        j = j - 1;
    }
    let mut out = String::new();
    let mut k: usize = i;
    while k < j
        invariant
            i <= k <= j <= n,
            n == v.len(),
            v@ == s@,
            out@ == s@.subrange(i as int, k as int),
        decreases j - k,
    {
        push_char(&mut out, v[k]);
        assert(s@.subrange(i as int, k + 1) == s@.subrange(i as int, k as int).push(v@[k as int]));
        k = k + 1;
    }
    out
}

} // verus!

verus! {

/// `s` without trailing occurrences of `c` (`str::trim_end_matches` with a
/// character pattern).
pub open spec fn trim_end_char_spec(s: Seq<char>, c: char) -> Seq<char>
    decreases s.len(),
{
    if s.len() > 0 && s.last() == c {
        trim_end_char_spec(s.drop_last(), c)
    } else {
        s
    }
}

/// `str::trim_end_matches` with a character pattern.
pub fn trim_end_char(s: &str, c: char) -> (r: String)
    ensures
        r@ == trim_end_char_spec(s@, c),
{
    let v = to_chars(s);
    let n = v.len();
    let mut j: usize = n;
    assert(s@.subrange(0, n as int) =~= s@);
    while j > 0 && v[j - 1] == c
        invariant
            j <= n,
            n == v.len(),
            v@ == s@,
            trim_end_char_spec(s@, c) == trim_end_char_spec(s@.subrange(0, j as int), c),
        decreases j,
    {
        assert(s@.subrange(0, j as int).drop_last() =~= s@.subrange(0, j - 1));
        j = j - 1;
    }
    let mut out = String::new();
    let mut k: usize = 0;
    while k < j
        invariant
            k <= j <= n,
            n == v.len(),
            v@ == s@,
            out@ == s@.subrange(0, k as int),
        decreases j - k,
    {
        push_char(&mut out, v[k]);
        assert(s@.subrange(0, k + 1) == s@.subrange(0, k as int).push(v@[k as int]));
        k = k + 1;
    }
    out
}

/// The pieces of `s` between the occurrences of `c` (`str::split` with a
/// character pattern), in order; never empty.
pub open spec fn split_spec(s: Seq<char>, c: char) -> Seq<Seq<char>>
    decreases s.len(),
{
    if s.len() == 0 {
        seq![Seq::empty()]
    } else {
        let init = split_spec(s.drop_last(), c);
        if s.last() == c {
            init.push(Seq::empty())
        } else {
            init.update(init.len() - 1, init.last().push(s.last()))
        }
    }
}

proof fn lemma_split_nonempty(s: Seq<char>, c: char)
    ensures
        split_spec(s, c).len() >= 1,
    decreases s.len(),
{
    if s.len() > 0 {
        lemma_split_nonempty(s.drop_last(), c);
    }
}

/// The pieces of `s` between the occurrences of `c`.
pub fn split_char(s: &str, c: char) -> (r: Vec<String>)
    ensures
        views(r@) == split_spec(s@, c),
{
    let v = to_chars(s);
    let n = v.len();
    let mut pieces: Vec<String> = Vec::new();
    let mut current = String::new();
    for i in 0..n
        invariant
            n == v.len(),
            v@ == s@,
            views(pieces@).push(current@) == split_spec(s@.take(i as int), c),
    {
        assert(s@.take(i + 1).drop_last() =~= s@.take(i as int));
        proof {
            lemma_split_nonempty(s@.take(i as int), c);
        }
        if v[i] == c {
            let done = current;
            pieces.push(done);
            current = String::new();
            assert(views(pieces@).push(current@) =~= split_spec(s@.take(i + 1), c));
        } else {
            let ghost before = views(pieces@).push(current@);
            push_char(&mut current, v[i]);
            assert(views(pieces@).push(current@) =~= before.update(before.len() - 1, before.last().push(v@[i as int])));
        }
    }
    pieces.push(current);
    assert(s@.take(n as int) =~= s@);
    assert(views(pieces@) =~= split_spec(s@, c));
    pieces
}


/// Removing a character leaves none of it, keeps the other characters (the
/// text gets no longer), and leaves a text without it unchanged.
pub proof fn remove_char_removes(s: Seq<char>, c: char)
    ensures
        !remove_char_spec(s, c).contains(c),
        remove_char_spec(s, c).len() <= s.len(),
        !s.contains(c) ==> remove_char_spec(s, c) == s,
        forall|i: int| 0 <= i < remove_char_spec(s, c).len() ==> s.contains(#[trigger] remove_char_spec(s, c)[i]),
    decreases s.len(),
{
    if s.len() > 0 {
        let init = s.drop_last();
        remove_char_removes(init, c);
        let r0 = remove_char_spec(init, c);
        assert forall|x: char| init.contains(x) implies s.contains(x) by {
            let k = choose|k: int| 0 <= k < init.len() && init[k] == x;
            assert(s[k] == x);
        }
        if !s.contains(c) {
            assert forall|x: char| init.contains(x) implies x != c by {}
            assert(s.last() != c) by { assert(s[s.len() - 1] == s.last()); }
            assert(init.push(s.last()) =~= s);
        }
        if s.last() != c {
            let r = r0.push(s.last());
            assert forall|i: int| 0 <= i < r.len() implies s.contains(#[trigger] r[i]) by {
                if i < r0.len() {
                    assert(init.contains(r0[i]));
                } else {
                    assert(s[s.len() - 1] == r[i]);
                }
            }
            assert(!r.contains(c)) by {
                if r.contains(c) {
                    let k = choose|k: int| 0 <= k < r.len() && r[k] == c;
                    if k < r0.len() {
                        assert(r0.contains(c));
                    }
                }
            }
        }
    }
}


/// ASCII lowercasing keeps the length, leaves no upper-case ASCII letter,
/// changes no other character, and changes nothing a second time.
pub proof fn ascii_lowercase_law(s: Seq<char>)
    ensures
        ascii_lowercase(s).len() == s.len(),
        forall|i: int| 0 <= i < s.len() ==> !('A' <= #[trigger] ascii_lowercase(s)[i] && ascii_lowercase(s)[i] <= 'Z'),
        forall|i: int| 0 <= i < s.len() && !('A' <= #[trigger] s[i] && s[i] <= 'Z') ==> ascii_lowercase(s)[i] == s[i],
        ascii_lowercase(ascii_lowercase(s)) == ascii_lowercase(s),
{
    let r = ascii_lowercase(s);
    assert forall|i: int| 0 <= i < s.len() implies !('A' <= #[trigger] r[i] && r[i] <= 'Z') by {
        let c = s[i];
        if 'A' <= c && c <= 'Z' {
            assert(65 <= (c as u32) <= 90);
            assert(97 <= (c as u32) + 32 <= 122);
        }
    }
    assert(ascii_lowercase(r) =~= r);
}

/// Trimming a character from the end leaves a beginning of the text that
/// does not end with it, and everything cut off is that character.
pub proof fn trim_end_char_law(s: Seq<char>, c: char)
    ensures
        trim_end_char_spec(s, c).len() <= s.len(),
        s.subrange(0, trim_end_char_spec(s, c).len() as int) == trim_end_char_spec(s, c),
        trim_end_char_spec(s, c).len() == 0 || trim_end_char_spec(s, c).last() != c,
        forall|i: int| trim_end_char_spec(s, c).len() <= i < s.len() ==> #[trigger] s[i] == c,
    decreases s.len(),
{
    if s.len() > 0 && s.last() == c {
        let init = s.drop_last();
        trim_end_char_law(init, c);
        let r = trim_end_char_spec(init, c);
        assert(s.subrange(0, r.len() as int) =~= init.subrange(0, r.len() as int));
        assert forall|i: int| r.len() <= i < s.len() implies #[trigger] s[i] == c by {
            if i < init.len() {
                assert(init[i] == s[i]);
            }
        }
    } else {
        assert(s.subrange(0, s.len() as int) =~= s);
    }
}


/// Right-aligning a text to a width keeps the text as its end, puts only
/// spaces before it, and gives the width or the text's own length when
/// that is longer.
pub proof fn pad_left_law(s: Seq<char>, width: nat)
    ensures
        pad_left_spec(s, width).len() == if s.len() >= width { s.len() } else { width },
        pad_left_spec(s, width).subrange(pad_left_spec(s, width).len() - s.len(), pad_left_spec(s, width).len() as int) == s,
        forall|i: int| 0 <= i < pad_left_spec(s, width).len() - s.len() ==> #[trigger] pad_left_spec(s, width)[i] == ' ',
{
    let r = pad_left_spec(s, width);
    assert(r.subrange(r.len() - s.len(), r.len() as int) =~= s);
}

/// Stripping a prefix succeeds exactly when the text begins with it, and
/// then the prefix followed by what is left is the text.
pub proof fn strip_prefix_law(s: Seq<char>, p: Seq<char>)
    ensures
        strip_prefix_spec(s, p) is Some <==> (p.len() <= s.len() && s.subrange(0, p.len() as int) == p),
        strip_prefix_spec(s, p) matches Some(rest) ==> p + rest == s,
{
    if strip_prefix_spec(s, p) is Some {
        assert(p + s.skip(p.len() as int) =~= s);
    }
}

} // verus!
