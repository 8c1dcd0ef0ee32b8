//! Character-level string utilities: equality, search, splitting and
//! joining, and whitespace trimming, each specified over `Seq<char>`.

use vstd::prelude::*;

verus! {

/// True when `c` is one of the ASCII whitespace characters that the
/// trimming and tokenizing helpers treat as blank.
pub open spec fn is_space(c: char) -> bool {
    c == ' ' || c == '\t' || c == '\r' || c == '\n'
}

/// True when the pattern `p` occurs in `s` starting at position `i`.
pub open spec fn matches_at(s: Seq<char>, p: Seq<char>, i: int) -> bool {
    0 <= i && i + p.len() <= s.len() && s.subrange(i, i + p.len() as int) == p
}

/// True when no character of `s` equals `sep`.
pub open spec fn has_no_char(s: Seq<char>, sep: char) -> bool {
    forall|i: int| 0 <= i < s.len() ==> s[i] != sep
}

/// Compare two string slices character by character.
pub fn str_eq(a: &str, b: &str) -> (r: bool)
    ensures
        r == (a@ == b@),
{
    let alen = a.unicode_len();
    let blen = b.unicode_len();
    if alen != blen {
        return false;
    }
    let mut i: usize = 0;
    while i < alen
        invariant
            alen == a@.len(),
            alen == b@.len(),
            i <= alen,
            forall|j: int| 0 <= j < i ==> a@[j] == b@[j],
        decreases alen - i,
    {
        if a.get_char(i) != b.get_char(i) {
            assert(a@[i as int] != b@[i as int]);
            return false;
        }
        i = i + 1;
    }
    proof {
        assert(a@ =~= b@);
    }
    true
}

/// Position of the first occurrence of the character `c` in `s`.
pub fn find_char(s: &str, c: char) -> (r: Option<usize>)
    ensures
        match r {
            Some(i) => i < s@.len() && s@[i as int] == c && forall|j: int| 0 <= j < i ==> s@[j] != c,
            None => has_no_char(s@, c),
        },
{
    let n = s.unicode_len();
    let mut i: usize = 0;
    while i < n
        invariant
            n == s@.len(),
            i <= n,
            forall|j: int| 0 <= j < i ==> s@[j] != c,
        decreases n - i,
    {
        if s.get_char(i) == c {
            return Some(i);
        }
        i = i + 1;
    }
    None
}

/// True when `p` occurs in `s` starting at position 0.
pub fn starts_with(s: &str, p: &str) -> (r: bool)
    ensures
        r == matches_at(s@, p@, 0),
{
    let n = s.unicode_len();
    let m = p.unicode_len();
    if m > n {
        return false;
    }
    let head = s.substring_char(0, m);
    str_eq(head, p)
}

/// Position of the first occurrence of the pattern `p` in `s`.
pub fn find_sub(s: &str, p: &str) -> (r: Option<usize>)
    ensures
        match r {
            Some(i) => matches_at(s@, p@, i as int) && forall|j: int| 0 <= j < i ==> !matches_at(
                s@,
                p@,
                j,
            ),
            None => forall|j: int| !matches_at(s@, p@, j),
        },
{
    let n = s.unicode_len();
    let m = p.unicode_len();
    if m > n {
        return None;
    }
    if m == 0 {
        assert(s@.subrange(0, 0) =~= p@);
        return Some(0);
    }
    let mut i: usize = 0;
    while i <= n - m
        invariant
            n == s@.len(),
            m == p@.len(),
            1 <= m <= n,
            i <= n - m + 1,
            forall|j: int| 0 <= j < i ==> !matches_at(s@, p@, j),
        decreases n - i,
    {
        let piece = s.substring_char(i, i + m);
        if str_eq(piece, p) {
            return Some(i);
        }
        i = i + 1;
    }
    assert(forall|j: int| j > n - m ==> !matches_at(s@, p@, j));
    None
}

/// The first occurrence of `p` in `s` at or after position `from`,
/// as a recursive definition usable inside other specifications.
pub open spec fn spec_find(s: Seq<char>, p: Seq<char>, from: int) -> Option<int>
    decreases s.len() - from,
    via spec_find_decreases
{
    if from < 0 || from + p.len() > s.len() {
        None
    } else if matches_at(s, p, from) {
        Some(from)
    } else {
        spec_find(s, p, from + 1)
    }
}

#[via_fn]
proof fn spec_find_decreases(s: Seq<char>, p: Seq<char>, from: int) {
    if !(from < 0 || from + p.len() > s.len()) && !matches_at(s, p, from) {
        assert(p.len() > 0) by {
            if p.len() == 0 {
                assert(s.subrange(from, from) =~= p);
            }
        }
    }
}

/// What `spec_find` returns: the first match at or after `from`, or
/// nothing when no later position matches.
pub proof fn lemma_spec_find(s: Seq<char>, p: Seq<char>, from: int)
    requires
        from >= 0,
    ensures
        match spec_find(s, p, from) {
            Some(i) => from <= i && matches_at(s, p, i) && forall|j: int|
                from <= j < i ==> !matches_at(s, p, j),
            None => forall|j: int| j >= from ==> !matches_at(s, p, j),
        },
    decreases s.len() - from,
{
    if from + p.len() > s.len() {
    } else if matches_at(s, p, from) {
    } else {
        assert(p.len() > 0) by {
            if p.len() == 0 {
                assert(s.subrange(from, from) =~= p);
            }
        }
        lemma_spec_find(s, p, from + 1);
    }
}

/// Position of the first occurrence of the pattern `p` in `s` at or
/// after position `from`.
pub fn find_sub_from(s: &str, p: &str, from: usize) -> (r: Option<usize>)
    requires
        from <= s@.len(),
    ensures
        r == match spec_find(s@, p@, from as int) {
            Some(i) => Some(i as usize),
            None => None::<usize>,
        },
        r matches Some(i) ==> i <= s@.len(),
{
    proof {
        lemma_spec_find(s@, p@, from as int);
    }
    let n = s.unicode_len();
    let m = p.unicode_len();
    if m > n || from > n - m {
        return None;
    }
    if m == 0 {
        assert(s@.subrange(from as int, from as int) =~= p@);
        return Some(from);
    }
    let mut i: usize = from;
    while i <= n - m
        invariant
            n == s@.len(),
            m == p@.len(),
            1 <= m <= n,
            from <= i <= n - m + 1,
            forall|j: int| from <= j < i ==> !matches_at(s@, p@, j),
        decreases n - i,
    {
        let piece = s.substring_char(i, i + m);
        if str_eq(piece, p) {
            proof {
                lemma_spec_find(s@, p@, from as int);
                assert(matches_at(s@, p@, i as int));
                match spec_find(s@, p@, from as int) {
                    Some(fi) => {
                        if fi > i {
                            assert(!matches_at(s@, p@, i as int));
                        }
                        assert(fi == i);
                    },
                    None => {
                        assert(false);
                    },
                }
            }
            return Some(i);
        }
        i = i + 1;
    }
    proof {
        lemma_spec_find(s@, p@, from as int);
        assert(forall|j: int| j > n - m ==> !matches_at(s@, p@, j));
    }
    None
}

/// True when the pattern `p` occurs somewhere in `s`.
pub fn contains_sub(s: &str, p: &str) -> (r: bool)
    ensures
        r == exists|i: int| matches_at(s@, p@, i),
{
    match find_sub(s, p) {
        Some(i) => {
            assert(matches_at(s@, p@, i as int));
            true
        },
        None => false,
    }
}

/// The pieces of `s` between occurrences of the separator, in order.
/// Mirrors the splitting convention in which an empty input yields one
/// empty piece and adjacent separators yield empty pieces.
pub open spec fn spec_split(s: Seq<char>, sep: char) -> Seq<Seq<char>>
    decreases s.len(),
{
    if s.len() == 0 {
        seq![Seq::<char>::empty()]
    } else if s[0] == sep {
        seq![Seq::<char>::empty()] + spec_split(s.skip(1), sep)
    } else {
        let rest = spec_split(s.skip(1), sep);
        seq![seq![s[0]] + rest[0]] + rest.skip(1)
    }
}

/// The pieces of `l` concatenated with the separator between adjacent pieces.
pub open spec fn spec_join(l: Seq<Seq<char>>, sep: char) -> Seq<char>
    decreases l.len(),
{
    if l.len() == 0 {
        Seq::<char>::empty()
    } else if l.len() == 1 {
        l[0]
    } else {
        l[0] + seq![sep] + spec_join(l.skip(1), sep)
    }
}

pub proof fn lemma_split_len(s: Seq<char>, sep: char)
    ensures
        spec_split(s, sep).len() >= 1,
    decreases s.len(),
{
    if s.len() == 0 {
    } else {
        lemma_split_len(s.skip(1), sep);
    }
}

/// Splitting a string that holds no separator yields that string alone.
pub proof fn lemma_split_no_sep(s: Seq<char>, sep: char)
    requires
        has_no_char(s, sep),
    ensures
        spec_split(s, sep) == seq![s],
    decreases s.len(),
{
    if s.len() == 0 {
        assert(spec_split(s, sep) =~~= seq![s]);
    } else {
        assert(s[0] != sep);
        assert(has_no_char(s.skip(1), sep)) by {
            assert(forall|i: int|
                0 <= i < s.skip(1).len() ==> s.skip(1)[i] == s[i + 1] && s[i + 1] != sep);
        }
        lemma_split_no_sep(s.skip(1), sep);
        assert(seq![s[0]] + s.skip(1) =~= s);
        assert(spec_split(s, sep) =~~= seq![s]);
    }
}

/// Splitting a string whose first separator stands after the piece `a`
/// peels `a` off and splits the remainder.
pub proof fn lemma_split_head(a: Seq<char>, t: Seq<char>, sep: char)
    requires
        has_no_char(a, sep),
    ensures
        spec_split(a + seq![sep] + t, sep) == seq![a] + spec_split(t, sep),
    decreases a.len(),
{
    let s = a + seq![sep] + t;
    if a.len() == 0 {
        assert(s =~= seq![sep] + t);
        assert(s[0] == sep);
        assert(s.skip(1) =~= t);
        assert(spec_split(s, sep) =~~= seq![a] + spec_split(t, sep));
    } else {
        assert(s[0] == a[0]);
        assert(a[0] != sep);
        assert(has_no_char(a.skip(1), sep)) by {
            assert(forall|i: int|
                0 <= i < a.skip(1).len() ==> a.skip(1)[i] == a[i + 1] && a[i + 1] != sep);
        }
        lemma_split_head(a.skip(1), t, sep);
        assert(s.skip(1) =~= a.skip(1) + seq![sep] + t);
        let rest = spec_split(s.skip(1), sep);
        assert(rest == seq![a.skip(1)] + spec_split(t, sep));
        lemma_split_len(t, sep);
        assert(rest[0] == a.skip(1));
        assert(rest.skip(1) =~= spec_split(t, sep));
        assert(seq![s[0]] + rest[0] =~= a);
        assert(spec_split(s, sep) =~~= seq![a] + spec_split(t, sep));
    }
}

/// Appending one more piece extends the joined string by a separator
/// and that piece (or is that piece alone when the list was empty).
pub proof fn lemma_join_push(l: Seq<Seq<char>>, x: Seq<char>, sep: char)
    ensures
        spec_join(l.push(x), sep) == if l.len() == 0 {
            x
        } else {
            (spec_join(l, sep) + seq![sep] + x)
        },
    decreases l.len(),
{
    let lp = l.push(x);
    if l.len() == 0 {
        assert(lp.len() == 1);
        assert(lp[0] == x);
    } else if l.len() == 1 {
        assert(lp.len() == 2);
        assert(lp[0] == l[0]);
        assert(lp.skip(1) =~= seq![x]);
        assert(spec_join(seq![x], sep) == x);
    } else {
        assert(lp[0] == l[0]);
        assert(lp.skip(1) =~= l.skip(1).push(x));
        lemma_join_push(l.skip(1), x, sep);
        assert(l.skip(1).len() >= 1);
        assert(spec_join(lp, sep) == l[0] + seq![sep] + (spec_join(l.skip(1), sep) + seq![sep]
            + x));
        assert(l[0] + seq![sep] + (spec_join(l.skip(1), sep) + seq![sep] + x) =~= (l[0] + seq![sep]
            + spec_join(l.skip(1), sep)) + seq![sep] + x);
    }
}

/// Joining a non-empty list of separator-free pieces and splitting the
/// result on that separator reproduces the original list.
pub proof fn lemma_join_split_roundtrip(l: Seq<Seq<char>>, sep: char)
    requires
        l.len() >= 1,
        forall|i: int| 0 <= i < l.len() ==> has_no_char(#[trigger] l[i], sep),
    ensures
        spec_split(spec_join(l, sep), sep) == l,
    decreases l.len(),
{
    if l.len() == 1 {
        lemma_split_no_sep(l[0], sep);
        assert(seq![l[0]] =~= l);
    } else {
        let tail = l.skip(1);
        assert(forall|i: int| 0 <= i < tail.len() ==> tail[i] == l[i + 1]);
        assert(forall|i: int| 0 <= i < tail.len() ==> has_no_char(#[trigger] tail[i], sep));
        lemma_join_split_roundtrip(tail, sep);
        lemma_split_head(l[0], spec_join(tail, sep), sep);
        assert(spec_join(l, sep) == l[0] + seq![sep] + spec_join(tail, sep));
        assert(spec_split(spec_join(l, sep), sep) == seq![l[0]] + tail);
        assert(seq![l[0]] + tail =~= l);
    }
}

/// Split a string slice at every occurrence of the separator character.
pub fn split_str(s: &str, sep: char) -> (r: Vec<String>)
    ensures
        r.deep_view() == spec_split(s@, sep),
    decreases s@.len(),
{
    match find_char(s, sep) {
        None => {
            let mut v: Vec<String> = Vec::new();
            v.push(s.to_owned());
            proof {
                lemma_split_no_sep(s@, sep);
                assert(v.deep_view() =~~= seq![s@]);
            }
            v
        },
        Some(i) => {
            let n = s.unicode_len();
            let head = s.substring_char(0, i);
            let tail = s.substring_char(i + 1, n);
            let mut r = split_str(tail, sep);
            r.insert(0, head.to_owned());
            proof {
                assert(s@ =~= head@ + seq![sep] + tail@);
                assert(has_no_char(head@, sep)) by {
                    assert(forall|j: int| 0 <= j < head@.len() ==> head@[j] == s@[j]);
                }
                lemma_split_head(head@, tail@, sep);
                assert(r.deep_view() =~~= seq![head@] + spec_split(tail@, sep));
            }
            r
        },
    }
}

/// Join the pieces with a one-character separator between adjacent pieces.
pub fn join_str(parts: &Vec<String>, sep: &str) -> (r: String)
    requires
        sep@.len() == 1,
    ensures
        r@ == spec_join(parts.deep_view(), sep@[0]),
{
    let ghost c: char = sep@[0];
    let mut out = String::new();
    let mut i: usize = 0;
    while i < parts.len()
        invariant
            i <= parts@.len(),
            sep@.len() == 1,
            c == sep@[0],
            out@ == spec_join(parts.deep_view().take(i as int), c),
        decreases parts@.len() - i,
    {
        if i > 0 {
            out.append(sep);
        }
        out.append(parts[i].as_str());
        proof {
            let dv = parts.deep_view();
            assert(dv[i as int] == parts@[i as int]@);
            assert(sep@ =~= seq![c]);
            lemma_join_push(dv.take(i as int), dv[i as int], c);
            assert(dv.take(i as int).push(dv[i as int]) =~= dv.take(i as int + 1));
        }
        i = i + 1;
    }
    proof {
        assert(parts.deep_view().take(parts@.len() as int) =~= parts.deep_view());
    }
    out
}

/// The suffix of `s` with leading whitespace removed.
pub open spec fn spec_trim_front(s: Seq<char>) -> Seq<char>
    decreases s.len(),
{
    if s.len() > 0 && is_space(s[0]) {
        spec_trim_front(s.skip(1))
    } else {
        s
    }
}

/// The prefix of `s` with trailing whitespace removed.
pub open spec fn spec_trim_back(s: Seq<char>) -> Seq<char>
    decreases s.len(),
{
    if s.len() > 0 && is_space(s[s.len() - 1]) {
        spec_trim_back(s.take(s.len() - 1))
    } else {
        s
    }
}

/// `s` with leading and trailing whitespace removed.
pub open spec fn spec_trim(s: Seq<char>) -> Seq<char> {
    spec_trim_back(spec_trim_front(s))
}

proof fn lemma_trim_front_skip(s: Seq<char>, lo: int)
    requires
        0 <= lo <= s.len(),
        forall|j: int| 0 <= j < lo ==> is_space(s[j]),
        lo < s.len() ==> !is_space(s[lo]),
    ensures
        spec_trim_front(s) == s.skip(lo),
    decreases lo,
{
    if lo == 0 {
        assert(s.skip(0) =~= s);
    } else {
        assert(is_space(s[0]));
        assert(s.len() > 0);
        let t = s.skip(1);
        assert(forall|j: int| 0 <= j < lo - 1 ==> t[j] == s[j + 1] && is_space(s[j + 1]));
        assert(lo - 1 < t.len() ==> t[lo - 1] == s[lo]);
        lemma_trim_front_skip(t, lo - 1);
        assert(t.skip(lo - 1) =~= s.skip(lo));
    }
}

proof fn lemma_trim_back_take(s: Seq<char>, hi: int)
    requires
        0 <= hi <= s.len(),
        forall|j: int| hi <= j < s.len() ==> is_space(s[j]),
        hi > 0 ==> !is_space(s[hi - 1]),
    ensures
        spec_trim_back(s) == s.take(hi),
    decreases s.len() - hi,
{
    if hi == s.len() {
        assert(s.take(hi) =~= s);
    } else {
        assert(is_space(s[s.len() - 1]));
        let t = s.take(s.len() - 1);
        assert(forall|j: int| 0 <= j < t.len() ==> t[j] == s[j]);
        lemma_trim_back_take(t, hi);
        assert(t.take(hi) =~= s.take(hi));
    }
}

/// Remove leading and trailing ASCII whitespace.
pub fn trim_str(s: &str) -> (r: String)
    ensures
        r@ == spec_trim(s@),
{
    let n = s.unicode_len();
    let mut lo: usize = 0;
    while lo < n && is_space_char(s.get_char(lo))
        invariant
            n == s@.len(),
            lo <= n,
            forall|j: int| 0 <= j < lo ==> is_space(s@[j]),
        decreases n - lo,
    {
        lo = lo + 1;
    }
    let mut hi: usize = n;
    while hi > lo && is_space_char(s.get_char(hi - 1))
        invariant
            n == s@.len(),
            lo <= hi <= n,
            lo < n ==> !is_space(s@[lo as int]),
            forall|j: int| hi <= j < n ==> is_space(s@[j]),
        decreases hi,
    {
        hi = hi - 1;
    }
    let piece = s.substring_char(lo, hi);
    proof {
        lemma_trim_front_skip(s@, lo as int);
        let f = s@.skip(lo as int);
        if hi == lo {
            lemma_trim_back_take(f, 0);
        } else {
            assert(f[hi - lo - 1] == s@[hi - 1]);
            assert(forall|j: int|
                hi - lo <= j < f.len() ==> f[j] == s@[j + lo] && is_space(s@[j + lo]));
            lemma_trim_back_take(f, hi - lo as int);
        }
        assert(f.take(hi - lo as int) =~= s@.subrange(lo as int, hi as int));
    }
    piece.to_owned()
}

/// Executable form of the whitespace test.
pub fn is_space_char(c: char) -> (r: bool)
    ensures
        r == is_space(c),
{
    c == ' ' || c == '\t' || c == '\r' || c == '\n'
}

} // verus!
