//! Verified character-level utilities over `&str` and `String`.
//!
//! Every executable helper here is specified against a spec function over
//! `Seq<char>`, so the rest of the crate can state its contracts in terms of
//! those sequence-level definitions.
use vstd::prelude::*;

verus! {

/// Whitespace characters removed by `trim`.
pub open spec fn is_ws(c: char) -> bool {
    c == ' ' || c == '\t' || c == '\r' || c == '\n'
}

/// ASCII lowercasing of one character; everything else is unchanged.
pub open spec fn lower_char(c: char) -> char {
    if 'A' <= c && c <= 'Z' {
        ((c as u8) + 0x20) as char
    } else {
        c
    }
}

/// ASCII lowercasing of a sequence.
pub open spec fn lower(s: Seq<char>) -> Seq<char> {
    s.map_values(|c: char| lower_char(c))
}

/// `p` is a prefix of `s`.
pub open spec fn starts_with(s: Seq<char>, p: Seq<char>) -> bool {
    p.len() <= s.len() && s.take(p.len() as int) == p
}

/// `p` is a suffix of `s`.
pub open spec fn ends_with(s: Seq<char>, p: Seq<char>) -> bool {
    p.len() <= s.len() && s.skip(s.len() - p.len()) == p
}

/// `p` occurs in `s` starting at index `i`.
pub open spec fn occurs_at(s: Seq<char>, p: Seq<char>, i: int) -> bool {
    0 <= i && i + p.len() <= s.len() && s.subrange(i, i + p.len()) == p
}

/// `p` occurs somewhere in `s`.
pub open spec fn contains_seq(s: Seq<char>, p: Seq<char>) -> bool {
    exists|i: int| occurs_at(s, p, i)
}

/// Index of the first occurrence of `c` in `s`, or -1 if there is none.
pub open spec fn first_index(s: Seq<char>, c: char) -> int
    decreases s.len(),
{
    if s.len() == 0 {
        -1
    } else if s[0] == c {
        0
    } else {
        let r = first_index(s.skip(1), c);
        if r < 0 {
            -1
        } else {
            r + 1
        }
    }
}

/// Index of the last occurrence of `c` in `s`, or -1 if there is none.
pub open spec fn last_index(s: Seq<char>, c: char) -> int
    decreases s.len(),
{
    if s.len() == 0 {
        -1
    } else {
        let r = last_index(s.skip(1), c);
        if r >= 0 {
            r + 1
        } else if s[0] == c {
            0
        } else {
            -1
        }
    }
}

/// Number of non-overlapping occurrences of two consecutive spaces,
/// scanning from the left.
pub open spec fn count_dspace(s: Seq<char>) -> nat
    decreases s.len(),
{
    if s.len() >= 2 && s[0] == ' ' && s[1] == ' ' {
        1 + count_dspace(s.skip(2))
    } else if s.len() >= 1 {
        count_dspace(s.skip(1))
    } else {
        0
    }
}

pub proof fn lemma_first_index(s: Seq<char>, c: char)
    ensures
        -1 <= first_index(s, c) < s.len(),
        first_index(s, c) >= 0 ==> s[first_index(s, c)] == c,
        first_index(s, c) >= 0 ==> forall|j: int| 0 <= j < first_index(s, c) ==> s[j] != c,
        first_index(s, c) == -1 ==> forall|j: int| 0 <= j < s.len() ==> s[j] != c,
    decreases s.len(),
{
    if s.len() > 0 && s[0] != c {
        lemma_first_index(s.skip(1), c);
        let r1 = first_index(s.skip(1), c);
        if r1 >= 0 {
            assert(s.skip(1)[r1] == s[r1 + 1]);
            assert forall|j: int| 0 <= j < r1 + 1 implies s[j] != c by {
                if j > 0 {
                    assert(s.skip(1)[j - 1] == s[j]);
                }
            }
        } else {
            assert forall|j: int| 0 <= j < s.len() implies s[j] != c by {
                if j > 0 {
                    assert(s.skip(1)[j - 1] == s[j]);
                }
            }
        }
    }
}

pub proof fn lemma_last_index(s: Seq<char>, c: char)
    ensures
        -1 <= last_index(s, c) < s.len(),
        last_index(s, c) >= 0 ==> s[last_index(s, c)] == c,
        last_index(s, c) >= 0 ==> forall|j: int| last_index(s, c) < j < s.len() ==> s[j] != c,
        last_index(s, c) == -1 ==> forall|j: int| 0 <= j < s.len() ==> s[j] != c,
    decreases s.len(),
{
    if s.len() > 0 {
        lemma_last_index(s.skip(1), c);
        let r1 = last_index(s.skip(1), c);
        if r1 >= 0 {
            assert(s.skip(1)[r1] == s[r1 + 1]);
            assert forall|j: int| r1 + 1 < j < s.len() implies s[j] != c by {
                assert(s.skip(1)[j - 1] == s[j]);
            }
        } else {
            assert forall|j: int| 0 < j < s.len() implies s[j] != c by {
                assert(s.skip(1)[j - 1] == s[j]);
            }
        }
    }
}

/// Remainder of `s` after removing the longest prefix of characters
/// satisfying `p`.
pub open spec fn trim_front_by(s: Seq<char>, p: spec_fn(char) -> bool) -> Seq<char>
    decreases s.len(),
{
    if s.len() > 0 && p(s[0]) {
        trim_front_by(s.skip(1), p)
    } else {
        s
    }
}

/// Remainder of `s` after removing the longest suffix of characters
/// satisfying `p`.
pub open spec fn trim_back_by(s: Seq<char>, p: spec_fn(char) -> bool) -> Seq<char>
    decreases s.len(),
{
    if s.len() > 0 && p(s.last()) {
        trim_back_by(s.drop_last(), p)
    } else {
        s
    }
}

/// `s` with surrounding whitespace removed.
pub open spec fn trim(s: Seq<char>) -> Seq<char> {
    trim_back_by(trim_front_by(s, |c: char| is_ws(c)), |c: char| is_ws(c))
}

/// `s` with every trailing colon removed.
pub open spec fn trim_colons(s: Seq<char>) -> Seq<char> {
    trim_back_by(s, |c: char| c == ':')
}

/// `s` with every leading `"- "` removed.
pub open spec fn trim_dash(s: Seq<char>) -> Seq<char>
    decreases s.len(),
{
    if s.len() >= 2 && s[0] == '-' && s[1] == ' ' {
        trim_dash(s.skip(2))
    } else {
        s
    }
}

/// The pieces of `s` between occurrences of the separator `c`; always at
/// least one piece, and empty pieces are kept.
pub open spec fn split_seq(s: Seq<char>, c: char) -> Seq<Seq<char>>
    decreases s.len(),
{
    if s.len() == 0 {
        seq![s]
    } else if s[0] == c {
        seq![Seq::<char>::empty()] + split_seq(s.skip(1), c)
    } else {
        let r = split_seq(s.skip(1), c);
        seq![seq![s[0]] + r[0]] + r.skip(1)
    }
}

pub proof fn lemma_split_nonempty(s: Seq<char>, c: char)
    ensures
        split_seq(s, c).len() >= 1,
    decreases s.len(),
{
    if s.len() > 0 {
        lemma_split_nonempty(s.skip(1), c);
    }
}

/// How `split_seq` decomposes at the first separator (or its absence):
/// if no separator occurs before position `i`, the first piece runs to `i`.
pub proof fn lemma_split_step(s: Seq<char>, c: char, i: int)
    requires
        0 <= i <= s.len(),
        forall|j: int| 0 <= j < i ==> s[j] != c,
        i == s.len() || s[i] == c,
    ensures
        i < s.len() ==> split_seq(s, c) == seq![s.take(i)] + split_seq(s.skip(i + 1), c),
        i == s.len() ==> split_seq(s, c) == seq![s],
    decreases i,
{
    lemma_split_nonempty(s, c);
    if i == 0 {
        if 0 < s.len() {
            assert(s.take(0) =~= Seq::<char>::empty());
            assert(split_seq(s, c) =~= seq![s.take(0)] + split_seq(s.skip(1), c));
        } else {
            assert(split_seq(s, c) == seq![s]);
        }
    } else {
        assert(s[0] != c);
        let r = split_seq(s.skip(1), c);
        lemma_split_nonempty(s.skip(1), c);
        assert forall|j: int| 0 <= j < i - 1 implies s.skip(1)[j] != c by {
            assert(s.skip(1)[j] == s[j + 1]);
        }
        lemma_split_step(s.skip(1), c, i - 1);
        if i < s.len() {
            assert(s.skip(1)[i - 1] == s[i]);
            assert(r == seq![s.skip(1).take(i - 1)] + split_seq(s.skip(1).skip(i), c));
            assert(seq![s[0]] + r[0] =~= s.take(i));
            assert(s.skip(1).skip(i) =~= s.skip(i + 1));
            assert(r.skip(1) =~= split_seq(s.skip(i + 1), c));
            assert(split_seq(s, c) =~= seq![s.take(i)] + split_seq(s.skip(i + 1), c));
        } else {
            assert(r == seq![s.skip(1)]);
            assert(seq![s[0]] + r[0] =~= s);
            assert(r.skip(1) =~= Seq::<Seq<char>>::empty());
            assert(split_seq(s, c) =~= seq![s]);
        }
    }
}

/// The pieces joined back together with `c` between them.
pub open spec fn join_seq(parts: Seq<Seq<char>>, c: char) -> Seq<char>
    decreases parts.len(),
{
    if parts.len() == 0 {
        Seq::empty()
    } else if parts.len() == 1 {
        parts[0]
    } else {
        parts[0] + seq![c] + join_seq(parts.skip(1), c)
    }
}

pub proof fn lemma_join_snoc(parts: Seq<Seq<char>>, c: char)
    requires
        parts.len() >= 2,
    ensures
        join_seq(parts, c) == join_seq(parts.drop_last(), c) + seq![c] + parts.last(),
    decreases parts.len(),
{
    if parts.len() == 2 {
        assert(parts.skip(1).len() == 1);
        assert(parts.skip(1)[0] == parts[1]);
        assert(parts.drop_last().len() == 1);
        assert(parts.drop_last()[0] == parts[0]);
        assert(join_seq(parts, c) == parts[0] + seq![c] + parts[1]);
    } else {
        lemma_join_snoc(parts.skip(1), c);
        assert(parts.skip(1).drop_last() =~= parts.drop_last().skip(1));
        assert(parts.skip(1).last() == parts.last());
        assert(parts.drop_last().len() >= 2);
        assert(parts.drop_last()[0] == parts[0]);
        assert(join_seq(parts, c) == parts[0] + seq![c] + join_seq(parts.skip(1), c));
        assert(join_seq(parts.drop_last(), c) == parts[0] + seq![c] + join_seq(
            parts.drop_last().skip(1),
            c,
        ));
        assert(join_seq(parts, c) =~= join_seq(parts.drop_last(), c) + seq![c] + parts.last());
    }
}

/// Relies on String::push: appends exactly one character to the string.
#[verifier::external_body]
pub fn push_char(s: &mut String, c: char)
    ensures
        final(s)@ == old(s)@.push(c),
{
    s.push(c)
}

/// Character-by-character string equality.
pub fn str_eq(a: &str, b: &str) -> (r: bool)
    ensures
        r == (a@ == b@),
{
    let alen = a.unicode_len();
    let blen = b.unicode_len();
    if alen != blen {
        assert(a@ != b@) by {
            assert(a@.len() != b@.len());
        }
        return false;
    }
    let mut i: usize = 0;
    while i < alen
        invariant
            alen == a@.len(),
            blen == b@.len(),
            alen == blen,
            0 <= i <= alen,
            forall|j: int| 0 <= j < i ==> a@[j] == b@[j],
        decreases alen - i,
    {
        if a.get_char(i) != b.get_char(i) {
            return false;
        }
        i += 1;
    }
    proof {
        assert(a@ =~= b@);
    }
    true
}

/// Whether `p` is a prefix of `s`.
pub fn str_starts_with(s: &str, p: &str) -> (r: bool)
    ensures
        r == starts_with(s@, p@),
{
    let slen = s.unicode_len();
    let plen = p.unicode_len();
    if plen > slen {
        return false;
    }
    let mut i: usize = 0;
    while i < plen
        invariant
            slen == s@.len(),
            plen == p@.len(),
            plen <= slen,
            0 <= i <= plen,
            forall|j: int| 0 <= j < i ==> s@[j] == p@[j],
        decreases plen - i,
    {
        if s.get_char(i) != p.get_char(i) {
            assert(s@.take(p@.len() as int)[i as int] != p@[i as int]);
            return false;
        }
        i += 1;
    }
    proof {
        assert(s@.take(p@.len() as int) =~= p@);
    }
    true
}

/// Whether `p` is a suffix of `s`.
pub fn str_ends_with(s: &str, p: &str) -> (r: bool)
    ensures
        r == ends_with(s@, p@),
{
    let slen = s.unicode_len();
    let plen = p.unicode_len();
    if plen > slen {
        return false;
    }
    let off = slen - plen;
    let mut i: usize = 0;
    while i < plen
        invariant
            slen == s@.len(),
            plen == p@.len(),
            plen <= slen,
            off == slen - plen,
            0 <= i <= plen,
            forall|j: int| 0 <= j < i ==> s@[off + j] == p@[j],
        decreases plen - i,
    {
        if s.get_char(off + i) != p.get_char(i) {
            assert(s@.skip(s@.len() - p@.len())[i as int] != p@[i as int]);
            return false;
        }
        i += 1;
    }
    proof {
        assert(s@.skip(s@.len() - p@.len()) =~= p@);
    }
    true
}

/// Whether `p` occurs anywhere in `s`.
pub fn str_contains(s: &str, p: &str) -> (r: bool)
    ensures
        r == contains_seq(s@, p@),
{
    let slen = s.unicode_len();
    let plen = p.unicode_len();
    if plen > slen {
        return false;
    }
    if plen == 0 {
        proof {
            assert(s@.subrange(0, 0) =~= p@);
            assert(occurs_at(s@, p@, 0));
        }
        return true;
    }
    let last = slen - plen;
    let mut i: usize = 0;
    while i <= last
        invariant
            slen == s@.len(),
            plen == p@.len(),
            1 <= plen <= slen,
            last == slen - plen,
            0 <= i <= last + 1,
            forall|k: int| 0 <= k < i ==> !occurs_at(s@, p@, k),
        decreases last - i + 1,
    {
        let mut j: usize = 0;
        let mut hit = true;
        while j < plen
            invariant
                slen == s@.len(),
                plen == p@.len(),
                i + plen <= slen,
                0 <= j <= plen,
                hit ==> forall|t: int| 0 <= t < j ==> s@[i + t] == p@[t],
                !hit ==> !occurs_at(s@, p@, i as int),
            decreases plen - j,
        {
            if s.get_char(i + j) != p.get_char(j) {
                proof {
                    if occurs_at(s@, p@, i as int) {
                        assert(s@.subrange(i as int, i + p@.len())[j as int] == p@[j as int]);
                    }
                }
                hit = false;
                j = plen;
            } else {
                j += 1;
            }
        }
        if hit {
            proof {
                assert(s@.subrange(i as int, i + p@.len()) =~= p@);
                assert(occurs_at(s@, p@, i as int));
            }
            return true;
        }
        i += 1;
    }
    proof {
        if contains_seq(s@, p@) {
            let k = choose|k: int| occurs_at(s@, p@, k);
            assert(!occurs_at(s@, p@, k));
        }
    }
    false
}

/// First index of `c` in `s`, if any.
pub fn str_find(s: &str, c: char) -> (r: Option<usize>)
    ensures
        match r {
            Some(i) => first_index(s@, c) == i as int,
            None => first_index(s@, c) == -1,
        },
{
    let len = s.unicode_len();
    let mut i: usize = 0;
    proof {
        lemma_first_index(s@, c);
    }
    while i < len
        invariant
            len == s@.len(),
            0 <= i <= len,
            -1 <= first_index(s@, c) < s@.len(),
            first_index(s@, c) >= 0 ==> s@[first_index(s@, c)] == c,
            first_index(s@, c) >= 0 ==> forall|j: int| 0 <= j < first_index(s@, c) ==> s@[j] != c,
            first_index(s@, c) == -1 ==> forall|j: int| 0 <= j < s@.len() ==> s@[j] != c,
            forall|j: int| 0 <= j < i ==> s@[j] != c,
        decreases len - i,
    {
        if s.get_char(i) == c {
            return Some(i);
        }
        i += 1;
    }
    None
}

/// Last index of `c` in `s`, if any.
pub fn str_rfind(s: &str, c: char) -> (r: Option<usize>)
    ensures
        match r {
            Some(i) => last_index(s@, c) == i as int,
            None => last_index(s@, c) == -1,
        },
{
    let len = s.unicode_len();
    let mut i: usize = len;
    proof {
        lemma_last_index(s@, c);
    }
    while i > 0
        invariant
            len == s@.len(),
            0 <= i <= len,
            -1 <= last_index(s@, c) < s@.len(),
            last_index(s@, c) >= 0 ==> s@[last_index(s@, c)] == c,
            last_index(s@, c) >= 0 ==> forall|j: int| last_index(s@, c) < j < s@.len() ==> s@[j]
                != c,
            last_index(s@, c) == -1 ==> forall|j: int| 0 <= j < s@.len() ==> s@[j] != c,
            forall|j: int| i <= j < s@.len() ==> s@[j] != c,
        decreases i,
    {
        i -= 1;
        if s.get_char(i) == c {
            return Some(i);
        }
    }
    None
}

/// ASCII-lowercased copy of a string.
pub fn str_to_lower(s: &str) -> (r: String)
    ensures
        r@ == lower(s@),
{
    let len = s.unicode_len();
    let mut out = String::new();
    let mut i: usize = 0;
    while i < len
        invariant
            len == s@.len(),
            0 <= i <= len,
            out@ == lower(s@).take(i as int),
        decreases len - i,
    {
        let c = s.get_char(i);
        let lc: char = if c >= 'A' && c <= 'Z' {
            (((c as u8) + 0x20)) as char
        } else {
            c
        };
        assert(lc == lower_char(s@[i as int]));
        push_char(&mut out, lc);
        proof {
            assert(out@ =~= lower(s@).take(i + 1));
        }
        i += 1;
    }
    proof {
        assert(lower(s@).take(len as int) =~= lower(s@));
    }
    out
}

/// Number of non-overlapping occurrences of two consecutive spaces.
pub fn str_count_dspace(s: &str) -> (r: usize)
    ensures
        r as nat == count_dspace(s@),
{
    let len = s.unicode_len();
    let mut cnt: usize = 0;
    let mut i: usize = 0;
    proof {
        assert(s@.skip(0) =~= s@);
    }
    while i < len
        invariant
            len == s@.len(),
            0 <= i <= len,
            2 * cnt <= i,
            count_dspace(s@) == cnt + count_dspace(s@.skip(i as int)),
        decreases len - i,
    {
        if i + 1 < len && s.get_char(i) == ' ' && s.get_char(i + 1) == ' ' {
            proof {
                assert(s@.skip(i as int)[0] == s@[i as int]);
                assert(s@.skip(i as int)[1] == s@[i + 1]);
                assert(s@.skip(i as int).skip(2) =~= s@.skip(i + 2));
            }
            cnt += 1;
            i += 2;
        } else {
            proof {
                if i < len {
                    assert(s@.skip(i as int)[0] == s@[i as int]);
                    if i + 1 < len {
                        assert(s@.skip(i as int)[1] == s@[i + 1]);
                    }
                }
                assert(s@.skip(i as int).skip(1) =~= s@.skip(i + 1));
            }
            i += 1;
        }
    }
    proof {
        assert(s@.skip(len as int) =~= Seq::<char>::empty());
    }
    cnt
}

/// Whether `c` is trimmed whitespace.
pub fn is_ws_char(c: char) -> (r: bool)
    ensures
        r == is_ws(c),
{
    c == ' ' || c == '\t' || c == '\r' || c == '\n'
}

/// `s` with surrounding whitespace removed.
pub fn str_trim<'a>(s: &'a str) -> (r: &'a str)
    ensures
        r@ == trim(s@),
{
    let mut r: &str = s;
    let mut rlen = r.unicode_len();
    while rlen > 0 && is_ws_char(r.get_char(0))
        invariant
            rlen == r@.len(),
            trim_front_by(s@, |c: char| is_ws(c)) == trim_front_by(r@, |c: char| is_ws(c)),
        decreases rlen,
    {
        let r2 = r.substring_char(1, rlen);
        proof {
            assert(r2@ =~= r@.skip(1));
        }
        r = r2;
        rlen -= 1;
    }
    assert(trim_front_by(s@, |c: char| is_ws(c)) == r@);
    let ghost f: Seq<char> = r@;
    while rlen > 0 && is_ws_char(r.get_char(rlen - 1))
        invariant
            rlen == r@.len(),
            trim_back_by(f, |c: char| is_ws(c)) == trim_back_by(r@, |c: char| is_ws(c)),
        decreases rlen,
    {
        let r2 = r.substring_char(0, rlen - 1);
        proof {
            assert(r2@ =~= r@.drop_last());
        }
        r = r2;
        rlen -= 1;
    }
    assert(trim_back_by(f, |c: char| is_ws(c)) == r@);
    r
}

/// `s` with every trailing colon removed.
pub fn str_trim_colons<'a>(s: &'a str) -> (r: &'a str)
    ensures
        r@ == trim_colons(s@),
{
    let mut r: &str = s;
    let mut rlen = r.unicode_len();
    while rlen > 0 && r.get_char(rlen - 1) == ':'
        invariant
            rlen == r@.len(),
            trim_back_by(s@, |c: char| c == ':') == trim_back_by(r@, |c: char| c == ':'),
        decreases rlen,
    {
        let r2 = r.substring_char(0, rlen - 1);
        proof {
            assert(r2@ =~= r@.drop_last());
        }
        r = r2;
        rlen -= 1;
    }
    r
}

/// `s` with every leading `"- "` removed.
pub fn str_trim_dash<'a>(s: &'a str) -> (r: &'a str)
    ensures
        r@ == trim_dash(s@),
{
    let mut r: &str = s;
    let mut rlen = r.unicode_len();
    while rlen >= 2 && r.get_char(0) == '-' && r.get_char(1) == ' '
        invariant
            rlen == r@.len(),
            trim_dash(s@) == trim_dash(r@),
        decreases rlen,
    {
        let r2 = r.substring_char(2, rlen);
        proof {
            assert(r2@ =~= r@.skip(2));
        }
        r = r2;
        rlen -= 2;
    }
    r
}

/// The pieces of `s` between occurrences of the separator `c`.
pub fn str_split(s: &str, c: char) -> (r: Vec<String>)
    ensures
        r.deep_view() == split_seq(s@, c),
{
    let len = s.unicode_len();
    let mut out: Vec<String> = Vec::new();
    let mut seg_start: usize = 0;
    let mut i: usize = 0;
    proof {
        assert(out.deep_view() =~= Seq::<Seq<char>>::empty());
        assert(s@.skip(0) =~= s@);
    }
    while i < len
        invariant
            len == s@.len(),
            0 <= seg_start <= i <= len,
            forall|j: int| seg_start <= j < i ==> s@[j] != c,
            split_seq(s@, c) == out.deep_view() + split_seq(s@.skip(seg_start as int), c),
        decreases len - i,
    {
        if s.get_char(i) == c {
            let piece = s.substring_char(seg_start, i).to_owned();
            proof {
                assert(piece@ =~= s@.skip(seg_start as int).take(i - seg_start));
                assert forall|j: int| 0 <= j < i - seg_start implies s@.skip(seg_start as int)[j]
                    != c by {
                    assert(s@.skip(seg_start as int)[j] == s@[seg_start + j]);
                }
                assert(s@.skip(seg_start as int)[i - seg_start] == s@[i as int]);
                lemma_split_step(s@.skip(seg_start as int), c, i - seg_start);
                assert(s@.skip(seg_start as int).skip(i - seg_start + 1) =~= s@.skip(i + 1));
            }
            let ghost before = out.deep_view();
            out.push(piece);
            proof {
                assert(out.deep_view() =~= before.push(piece@));
                assert(split_seq(s@, c) =~= out.deep_view() + split_seq(s@.skip(i + 1), c));
            }
            seg_start = i + 1;
        }
        i += 1;
    }
    let piece = s.substring_char(seg_start, len).to_owned();
    proof {
        assert(piece@ =~= s@.skip(seg_start as int));
        assert forall|j: int| 0 <= j < s@.skip(seg_start as int).len() implies s@.skip(
            seg_start as int,
        )[j] != c by {
            assert(s@.skip(seg_start as int)[j] == s@[seg_start + j]);
        }
        lemma_split_step(s@.skip(seg_start as int), c, len - seg_start);
    }
    let ghost before = out.deep_view();
    out.push(piece);
    proof {
        assert(out.deep_view() =~= before.push(piece@));
        assert(split_seq(s@, c) =~= out.deep_view());
    }
    out
}

/// The pieces joined with `c` between them.
pub fn str_join(parts: &Vec<String>, c: char) -> (r: String)
    ensures
        r@ == join_seq(parts.deep_view(), c),
{
    let n = parts.len();
    if n == 0 {
        let r = String::new();
        proof {
            assert(parts.deep_view().len() == 0);
        }
        return r;
    }
    let mut out = parts[0].clone();
    proof {
        assert(parts.deep_view().take(1) =~= seq![parts.deep_view()[0]]);
        assert(parts.deep_view()[0] == parts@[0]@);
        assert(out@ == join_seq(parts.deep_view().take(1), c));
    }
    let mut i: usize = 1;
    while i < n
        invariant
            n == parts@.len(),
            parts.deep_view().len() == n,
            1 <= i <= n,
            out@ == join_seq(parts.deep_view().take(i as int), c),
        decreases n - i,
    {
        push_char(&mut out, c);
        out.append(parts[i].as_str());
        proof {
            let p = parts.deep_view();
            assert(p.take(i + 1).drop_last() =~= p.take(i as int));
            assert(p.take(i + 1).last() == p[i as int]);
            assert(p[i as int] == parts@[i as int]@);
            lemma_join_snoc(p.take(i + 1), c);
        }
        i += 1;
    }
    proof {
        assert(parts.deep_view().take(n as int) =~= parts.deep_view());
    }
    out
}

} // verus!
