use vstd::prelude::*;

verus! {

/// What `char::is_whitespace` returns: whether the character has the Unicode
/// white-space property. The result depends on the character alone.
pub uninterp spec fn ws_char(c: char) -> bool;

/// Relies on `char::is_whitespace`: Unicode white-space test. The space
/// character is documented as white space, and the only other white-space
/// characters below 0x80 are the controls 0x09 through 0x0D (the Unicode
/// `White_Space` property is a closed list).
#[verifier::external_body]
pub fn is_ws(c: char) -> (r: bool)
    ensures
        r == ws_char(c),
        c == ' ' ==> r,
        (r && (c as u32) < 0x80) ==> (c == ' ' || (0x09 <= (c as u32) && (c as u32) <= 0x0d)),
{
    c.is_whitespace()
}

/// Relies on `str::chars`: yields the characters of the string, in order.
#[verifier::external_body]
pub fn str_chars(s: &str) -> (r: Vec<char>)
    ensures
        r@ == s@,
{
    s.chars().collect()
}

/// Relies on `FromIterator for String`: concatenating the characters, in
/// order, yields the string.
#[verifier::external_body]
pub fn chars_str(v: &Vec<char>) -> (r: String)
    ensures
        r@ == v@,
{
    v.iter().collect()
}

// ---------------------------------------------------------------------------
// Trimming white space
// ---------------------------------------------------------------------------

pub open spec fn trim_start_spec(s: Seq<char>) -> Seq<char>
    decreases s.len(),
{
    if s.len() > 0 && ws_char(s[0]) {
        trim_start_spec(s.drop_first())
    } else {
        s
    }
}

pub open spec fn trim_end_spec(s: Seq<char>) -> Seq<char>
    decreases s.len(),
{
    if s.len() > 0 && ws_char(s[s.len() - 1]) {
        trim_end_spec(s.drop_last())
    } else {
        s
    }
}

/// The string with leading and trailing white space removed.
pub open spec fn trim_spec(s: Seq<char>) -> Seq<char> {
    trim_end_spec(trim_start_spec(s))
}

proof fn lemma_trim_start_skip(s: Seq<char>, k: int)
    requires
        0 <= k <= s.len(),
        forall|i: int| 0 <= i < k ==> ws_char(s[i]),
        k < s.len() ==> !ws_char(s[k]),
    ensures
        trim_start_spec(s) == s.skip(k),
    decreases k,
{
    if k == 0 {
        assert(s.skip(0) =~= s);
    } else {
        let t = s.drop_first();
        assert(t =~= s.skip(1));
        lemma_trim_start_skip(t, k - 1);
        assert(t.skip(k - 1) =~= s.skip(k));
    }
}

proof fn lemma_trim_end_take(s: Seq<char>, k: int)
    requires
        0 <= k <= s.len(),
        forall|i: int| k <= i < s.len() ==> ws_char(s[i]),
        k > 0 ==> !ws_char(s[k - 1]),
    ensures
        trim_end_spec(s) == s.take(k),
    decreases s.len(),
{
    if s.len() > k {
        let t = s.drop_last();
        lemma_trim_end_take(t, k);
        assert(t.take(k) =~= s.take(k));
    } else {
        assert(s.take(k) =~= s);
    }
}

/// The characters of `v` with leading and trailing white space removed.
pub fn trimmed(v: &Vec<char>) -> (r: Vec<char>)
    ensures
        r@ == trim_spec(v@),
{
    let n = v.len();
    let mut start: usize = 0;
    while start < n && is_ws(v[start])
        invariant
            0 <= start <= n,
            n == v@.len(),
            forall|i: int| 0 <= i < start ==> ws_char(v@[i]),
        decreases n - start,
    {
        start = start + 1;
    }
    if start == n {
        proof {
            lemma_trim_start_skip(v@, n as int);
            assert(v@.skip(n as int) =~= Seq::<char>::empty());
        }
        let r: Vec<char> = Vec::new();
        return r;
    }
    let mut end: usize = n;
    while end > start + 1 && is_ws(v[end - 1])
        invariant
            start < end <= n,
            n == v@.len(),
            forall|i: int| end <= i < n ==> ws_char(v@[i]),
        decreases end,
    {
        end = end - 1;
    }
    if is_ws(v[end - 1]) {
        // only possible when end == start + 1, i.e. v[start] is white space,
        // contradicting the first loop's exit condition
        proof {
            assert(false);
        }
    }
    let mut r: Vec<char> = Vec::new();
    let mut k: usize = start;
    while k < end
        invariant
            start <= k <= end <= n,
            n == v@.len(),
            r@ == v@.subrange(start as int, k as int),
        decreases end - k,
    {
        r.push(v[k]);
        proof {
            assert(r@ =~= v@.subrange(start as int, k + 1 as int));
        }
        k = k + 1;
    }
    proof {
        lemma_trim_start_skip(v@, start as int);
        let t = v@.skip(start as int);
        lemma_trim_end_take(t, end - start as int);
        assert(t.take(end - start as int) =~= v@.subrange(start as int, end as int));
    }
    r
}

// ---------------------------------------------------------------------------
// Splitting on a separator character
// ---------------------------------------------------------------------------

/// The pieces of `s` split on the separator `sep`, with `cur` the piece built
/// so far; splitting a whole string starts with an empty `cur`. A string with
/// no separator is one piece; each separator ends a piece, so `n` separators
/// give `n + 1` pieces.
pub open spec fn split_acc(s: Seq<char>, sep: char, cur: Seq<char>) -> Seq<Seq<char>>
    decreases s.len(),
{
    if s.len() == 0 {
        seq![cur]
    } else if s[0] == sep {
        seq![cur] + split_acc(s.drop_first(), sep, seq![])
    } else {
        split_acc(s.drop_first(), sep, cur.push(s[0]))
    }
}

// ---------------------------------------------------------------------------
// Environment-variable token lists: split on single spaces, trim each piece,
// drop the pieces that are then empty.
// ---------------------------------------------------------------------------

pub open spec fn trim_all(ts: Seq<Seq<char>>) -> Seq<Seq<char>>
    decreases ts.len(),
{
    if ts.len() == 0 {
        Seq::empty()
    } else {
        seq![trim_spec(ts[0])] + trim_all(ts.drop_first())
    }
}

pub open spec fn drop_empty(ts: Seq<Seq<char>>) -> Seq<Seq<char>>
    decreases ts.len(),
{
    if ts.len() == 0 {
        Seq::empty()
    } else if ts[0].len() > 0 {
        seq![ts[0]] + drop_empty(ts.drop_first())
    } else {
        drop_empty(ts.drop_first())
    }
}

/// The flag tokens read from one environment-variable value.
pub open spec fn env_tokens_spec(s: Seq<char>) -> Seq<Seq<char>> {
    drop_empty(trim_all(split_acc(s, ' ', seq![])))
}

proof fn lemma_trim_all_push(ts: Seq<Seq<char>>, t: Seq<char>)
    ensures
        trim_all(ts.push(t)) == trim_all(ts).push(trim_spec(t)),
    decreases ts.len(),
{
    reveal_with_fuel(trim_all, 2);
    if ts.len() == 0 {
        assert(ts.push(t).drop_first() =~= Seq::<Seq<char>>::empty());
        assert(trim_all(ts.push(t)) =~= trim_all(ts).push(trim_spec(t)));
    } else {
        assert(ts.push(t).drop_first() =~= ts.drop_first().push(t));
        lemma_trim_all_push(ts.drop_first(), t);
        assert(trim_all(ts.push(t)) =~= trim_all(ts).push(trim_spec(t)));
    }
}

proof fn lemma_drop_empty_push(ts: Seq<Seq<char>>, t: Seq<char>)
    ensures
        drop_empty(ts.push(t)) == if t.len() > 0 {
            drop_empty(ts).push(t)
        } else {
            drop_empty(ts)
        },
    decreases ts.len(),
{
    reveal_with_fuel(drop_empty, 2);
    if ts.len() == 0 {
        assert(ts.push(t).drop_first() =~= Seq::<Seq<char>>::empty());
        if t.len() > 0 {
            assert(drop_empty(ts.push(t)) =~= drop_empty(ts).push(t));
        }
    } else {
        assert(ts.push(t).drop_first() =~= ts.drop_first().push(t));
        lemma_drop_empty_push(ts.drop_first(), t);
        if t.len() > 0 {
            assert(drop_empty(ts.push(t)) =~= drop_empty(ts).push(t));
        }
    }
}

/// Splits an environment-variable value into flag tokens: pieces between
/// single spaces, each trimmed of white space, empty pieces dropped.
pub fn split_tokens(s: &str) -> (r: Vec<String>)
    ensures
        r.deep_view() == env_tokens_spec(s@),
{
    let v = str_chars(s);
    let n = v.len();
    let mut out: Vec<String> = Vec::new();
    let mut cur: Vec<char> = Vec::new();
    let ghost mut done: Seq<Seq<char>> = Seq::empty();
    let mut i: usize = 0;
    proof {
        assert(v@.skip(0) =~= v@);
        assert(out.deep_view() =~= drop_empty(trim_all(done)));
    }
    while i < n
        invariant
            0 <= i <= n,
            n == v@.len(),
            v@ == s@,
            split_acc(s@, ' ', seq![]) == done + split_acc(v@.skip(i as int), ' ', cur@),
            out.deep_view() == drop_empty(trim_all(done)),
        decreases n - i,
    {
        let c = v[i];
        proof {
            assert(v@.skip(i as int)[0] == c);
            assert(v@.skip(i as int).drop_first() =~= v@.skip(i + 1 as int));
        }
        if c == ' ' {
            proof {
                assert(split_acc(v@.skip(i as int), ' ', cur@) =~= seq![cur@] + split_acc(
                    v@.skip(i + 1 as int),
                    ' ',
                    seq![],
                ));
                assert(done + (seq![cur@] + split_acc(v@.skip(i + 1 as int), ' ', seq![]))
                    =~= done.push(cur@) + split_acc(v@.skip(i + 1 as int), ' ', seq![]));
                lemma_trim_all_push(done, cur@);
                lemma_drop_empty_push(trim_all(done), trim_spec(cur@));
            }
            let t = trimmed(&cur);
            if t.len() > 0 {
                let piece = chars_str(&t);
                out.push(piece);
                proof {
                    assert(out.deep_view() =~= drop_empty(trim_all(done.push(cur@))));
                }
            } else {
                proof {
                    assert(out.deep_view() =~= drop_empty(trim_all(done.push(cur@))));
                }
            }
            proof {
                done = done.push(cur@);
            }
            cur = Vec::new();
        } else {
            proof {
                assert(split_acc(v@.skip(i as int), ' ', cur@) == split_acc(
                    v@.skip(i + 1 as int),
                    ' ',
                    cur@.push(c),
                ));
            }
            cur.push(c);
        }
        i = i + 1;
    }
    proof {
        assert(v@.skip(n as int) =~= Seq::<char>::empty());
        assert(split_acc(v@.skip(n as int), ' ', cur@) =~= seq![cur@]);
        assert(done + seq![cur@] =~= done.push(cur@));
        lemma_trim_all_push(done, cur@);
        lemma_drop_empty_push(trim_all(done), trim_spec(cur@));
    }
    let t = trimmed(&cur);
    if t.len() > 0 {
        let piece = chars_str(&t);
        out.push(piece);
        proof {
            assert(out.deep_view() =~= drop_empty(trim_all(done.push(cur@))));
        }
    } else {
        proof {
            assert(out.deep_view() =~= drop_empty(trim_all(done.push(cur@))));
        }
    }
    out
}

// ---------------------------------------------------------------------------
// Splitting into lines: pieces between newline characters; a final empty
// piece (from a trailing newline) is dropped; every piece that was ended by a
// newline loses one trailing carriage return.
// ---------------------------------------------------------------------------

/// One trailing carriage return removed.
pub open spec fn strip_cr(s: Seq<char>) -> Seq<char> {
    if s.len() > 0 && s[s.len() - 1] == '\r' {
        s.drop_last()
    } else {
        s
    }
}

pub open spec fn strip_all(ts: Seq<Seq<char>>) -> Seq<Seq<char>>
    decreases ts.len(),
{
    if ts.len() == 0 {
        Seq::empty()
    } else {
        seq![strip_cr(ts[0])] + strip_all(ts.drop_first())
    }
}

/// The lines of `s`: split on newlines, drop a final empty piece, strip one
/// carriage return from each piece that a newline ended.
pub open spec fn lines_spec(s: Seq<char>) -> Seq<Seq<char>> {
    let raw = split_acc(s, '\n', seq![]);
    if raw.last().len() == 0 {
        strip_all(raw.drop_last())
    } else {
        strip_all(raw.drop_last()).push(raw.last())
    }
}

proof fn lemma_strip_all_push(ts: Seq<Seq<char>>, t: Seq<char>)
    ensures
        strip_all(ts.push(t)) == strip_all(ts).push(strip_cr(t)),
    decreases ts.len(),
{
    reveal_with_fuel(strip_all, 2);
    if ts.len() == 0 {
        assert(ts.push(t).drop_first() =~= Seq::<Seq<char>>::empty());
        assert(strip_all(ts.push(t)) =~= strip_all(ts).push(strip_cr(t)));
    } else {
        assert(ts.push(t).drop_first() =~= ts.drop_first().push(t));
        lemma_strip_all_push(ts.drop_first(), t);
        assert(strip_all(ts.push(t)) =~= strip_all(ts).push(strip_cr(t)));
    }
}

/// Splits captured process output into lines, as `lines_spec` describes.
pub fn split_lines(s: &str) -> (r: Vec<String>)
    ensures
        r.deep_view() == lines_spec(s@),
{
    let v = str_chars(s);
    let n = v.len();
    let mut out: Vec<String> = Vec::new();
    let mut cur: Vec<char> = Vec::new();
    let ghost mut done: Seq<Seq<char>> = Seq::empty();
    let mut i: usize = 0;
    proof {
        assert(v@.skip(0) =~= v@);
        assert(out.deep_view() =~= strip_all(done));
    }
    while i < n
        invariant
            0 <= i <= n,
            n == v@.len(),
            v@ == s@,
            split_acc(s@, '\n', seq![]) == done + split_acc(v@.skip(i as int), '\n', cur@),
            out.deep_view() == strip_all(done),
        decreases n - i,
    {
        let c = v[i];
        proof {
            assert(v@.skip(i as int)[0] == c);
            assert(v@.skip(i as int).drop_first() =~= v@.skip(i + 1 as int));
        }
        if c == '\n' {
            proof {
                assert(split_acc(v@.skip(i as int), '\n', cur@) =~= seq![cur@] + split_acc(
                    v@.skip(i + 1 as int),
                    '\n',
                    seq![],
                ));
                assert(done + (seq![cur@] + split_acc(v@.skip(i + 1 as int), '\n', seq![]))
                    =~= done.push(cur@) + split_acc(v@.skip(i + 1 as int), '\n', seq![]));
                lemma_strip_all_push(done, cur@);
            }
            let stripped = if cur.len() > 0 && cur[cur.len() - 1] == '\r' {
                let mut c2 = cur.clone();
                c2.pop();
                proof {
                    assert(c2@ =~= strip_cr(cur@));
                }
                c2
            } else {
                let c2 = cur.clone();
                proof {
                    assert(c2@ =~= strip_cr(cur@));
                }
                c2
            };
            let piece = chars_str(&stripped);
            out.push(piece);
            proof {
                assert(out.deep_view() =~= strip_all(done.push(cur@)));
                done = done.push(cur@);
            }
            cur = Vec::new();
        } else {
            proof {
                assert(split_acc(v@.skip(i as int), '\n', cur@) == split_acc(
                    v@.skip(i + 1 as int),
                    '\n',
                    cur@.push(c),
                ));
            }
            cur.push(c);
        }
        i = i + 1;
    }
    proof {
        assert(v@.skip(n as int) =~= Seq::<char>::empty());
        assert(split_acc(v@.skip(n as int), '\n', cur@) =~= seq![cur@]);
        assert(done + seq![cur@] =~= done.push(cur@));
        let raw = split_acc(s@, '\n', seq![]);
        assert(raw.last() == cur@);
        assert(raw.drop_last() =~= done);
    }
    if cur.len() > 0 {
        let piece = chars_str(&cur);
        out.push(piece);
        proof {
            assert(out.deep_view() =~= lines_spec(s@));
        }
    } else {
        proof {
            assert(out.deep_view() =~= lines_spec(s@));
        }
    }
    out
}

// ---------------------------------------------------------------------------
// Substring search
// ---------------------------------------------------------------------------

/// `needle` occurs in `hay` at position `i`.
pub open spec fn contains_at(hay: Seq<char>, i: int, needle: Seq<char>) -> bool {
    0 <= i && i + needle.len() <= hay.len() && hay.subrange(i, i + needle.len()) == needle
}

/// `needle` occurs somewhere in `hay`.
pub open spec fn contains_seq(hay: Seq<char>, needle: Seq<char>) -> bool {
    exists|i: int| contains_at(hay, i, needle)
}

/// The first position at or after `from` where `needle` occurs in `hay`.
pub open spec fn find_spec(hay: Seq<char>, needle: Seq<char>, from: int) -> Option<int>
    decreases hay.len() - from + 1,
{
    if from < 0 || from + needle.len() > hay.len() {
        None
    } else if contains_at(hay, from, needle) {
        Some(from)
    } else {
        find_spec(hay, needle, from + 1)
    }
}

pub proof fn lemma_find_spec_some(hay: Seq<char>, needle: Seq<char>, from: int, i: int)
    requires
        0 <= from <= i,
        contains_at(hay, i, needle),
        forall|k: int| from <= k < i ==> !contains_at(hay, k, needle),
    ensures
        find_spec(hay, needle, from) == Some(i),
    decreases i - from,
{
    if from < i {
        lemma_find_spec_some(hay, needle, from + 1, i);
    }
}

pub proof fn lemma_find_spec_none(hay: Seq<char>, needle: Seq<char>, from: int)
    requires
        from >= 0,
        forall|k: int| k >= from ==> !contains_at(hay, k, needle),
    ensures
        find_spec(hay, needle, from) == None::<int>,
    decreases hay.len() - from + 1,
{
    if from + needle.len() <= hay.len() {
        lemma_find_spec_none(hay, needle, from + 1);
    }
}

pub proof fn lemma_find_spec_props(hay: Seq<char>, needle: Seq<char>, from: int)
    requires
        from >= 0,
    ensures
        match find_spec(hay, needle, from) {
            Some(i) => from <= i && contains_at(hay, i, needle) && forall|k: int|
                from <= k < i ==> !contains_at(hay, k, needle),
            None => forall|k: int| k >= from ==> !contains_at(hay, k, needle),
        },
    decreases hay.len() - from + 1,
{
    if from + needle.len() > hay.len() {
        assert(forall|k: int| k >= from ==> !contains_at(hay, k, needle));
    } else if !contains_at(hay, from, needle) {
        lemma_find_spec_props(hay, needle, from + 1);
    }
}

fn match_at(hay: &Vec<char>, needle: &Vec<char>, i: usize) -> (r: bool)
    requires
        i + needle@.len() <= hay@.len(),
    ensures
        r == contains_at(hay@, i as int, needle@),
{
    let m = needle.len();
    let n = hay.len();
    let mut j: usize = 0;
    while j < m
        invariant
            0 <= j <= m,
            m == needle@.len(),
            n == hay@.len(),
            i + m <= n,
            forall|k: int| 0 <= k < j ==> hay@[i + k] == needle@[k],
        decreases m - j,
    {
        if hay[i + j] != needle[j] {
            proof {
                assert(hay@.subrange(i as int, i + m as int)[j as int] == hay@[i + j]);
            }
            return false;
        }
        j = j + 1;
    }
    proof {
        assert(hay@.subrange(i as int, i + m as int) =~= needle@);
    }
    true
}

/// The first position at or after `from` where `needle` occurs in `hay`.
pub fn find_sub_from(hay: &Vec<char>, needle: &Vec<char>, from: usize) -> (r: Option<usize>)
    ensures
        match r {
            Some(i) => find_spec(hay@, needle@, from as int) == Some(i as int),
            None => find_spec(hay@, needle@, from as int) == None::<int>,
        },
{
    let n = hay.len();
    let m = needle.len();
    if m == 0 {
        if from <= n {
            proof {
                assert(hay@.subrange(from as int, from as int) =~= needle@);
            }
            return Some(from);
        } else {
            return None;
        }
    }
    if m > n || from > n - m {
        proof {
            assert(forall|k: int| k >= from ==> !contains_at(hay@, k, needle@));
            lemma_find_spec_none(hay@, needle@, from as int);
        }
        return None;
    }
    let mut i: usize = from;
    while i <= n - m
        invariant
            from <= i <= n - m + 1,
            1 <= m <= n,
            n == hay@.len(),
            m == needle@.len(),
            forall|k: int| from <= k < i ==> !contains_at(hay@, k, needle@),
        decreases n - m - i + 1,
    {
        if match_at(hay, needle, i) {
            proof {
                lemma_find_spec_some(hay@, needle@, from as int, i as int);
            }
            return Some(i);
        }
        i = i + 1;
    }
    proof {
        assert(forall|k: int| k >= from ==> !contains_at(hay@, k, needle@));
        lemma_find_spec_none(hay@, needle@, from as int);
    }
    None
}

/// Whether `needle` occurs anywhere in `hay`.
pub fn contains_sub(hay: &Vec<char>, needle: &Vec<char>) -> (r: bool)
    ensures
        r == contains_seq(hay@, needle@),
{
    let r = find_sub_from(hay, needle, 0);
    proof {
        lemma_find_spec_props(hay@, needle@, 0);
        if r is Some {
            assert(contains_at(hay@, r->0 as int, needle@));
        } else {
            assert(forall|k: int| !contains_at(hay@, k, needle@));
        }
    }
    r.is_some()
}

// ---------------------------------------------------------------------------
// Miscellaneous character-sequence operations
// ---------------------------------------------------------------------------

/// The characters of `v` from position `a` up to (excluding) `b`.
pub fn copy_range(v: &Vec<char>, a: usize, b: usize) -> (r: Vec<char>)
    requires
        a <= b <= v@.len(),
    ensures
        r@ == v@.subrange(a as int, b as int),
{
    let mut r: Vec<char> = Vec::new();
    let mut k: usize = a;
    proof {
        assert(r@ =~= v@.subrange(a as int, a as int));
    }
    while k < b
        invariant
            a <= k <= b <= v@.len(),
            r@ == v@.subrange(a as int, k as int),
        decreases b - k,
    {
        r.push(v[k]);
        proof {
            assert(r@ =~= v@.subrange(a as int, k + 1 as int));
        }
        k = k + 1;
    }
    r
}

/// Equality of two character vectors.
pub fn eq_chars(a: &Vec<char>, b: &Vec<char>) -> (r: bool)
    ensures
        r == (a@ == b@),
{
    if a.len() != b.len() {
        return false;
    }
    let n = a.len();
    let mut i: usize = 0;
    while i < n
        invariant
            0 <= i <= n,
            n == a@.len() == b@.len(),
            forall|k: int| 0 <= k < i ==> a@[k] == b@[k],
        decreases n - i,
    {
        if a[i] != b[i] {
            return false;
        }
        i = i + 1;
    }
    proof {
        assert(a@ =~= b@);
    }
    true
}

/// Equality of two string slices.
pub fn str_eq(a: &str, b: &str) -> (r: bool)
    ensures
        r == (a@ == b@),
{
    let va = str_chars(a);
    let vb = str_chars(b);
    eq_chars(&va, &vb)
}

pub open spec fn starts_with_spec(s: Seq<char>, p: Seq<char>) -> bool {
    p.len() <= s.len() && s.subrange(0, p.len() as int) == p
}

pub open spec fn ends_with_spec(s: Seq<char>, p: Seq<char>) -> bool {
    p.len() <= s.len() && s.subrange(s.len() - p.len(), s.len() as int) == p
}

/// Whether `s` starts with `p`.
pub fn str_starts_with(s: &str, p: &str) -> (r: bool)
    ensures
        r == starts_with_spec(s@, p@),
{
    let vs = str_chars(s);
    let vp = str_chars(p);
    if vp.len() > vs.len() {
        return false;
    }
    let r = match_at(&vs, &vp, 0);
    r
}

/// Whether `s` ends with `p`.
pub fn str_ends_with(s: &str, p: &str) -> (r: bool)
    ensures
        r == ends_with_spec(s@, p@),
{
    let vs = str_chars(s);
    let vp = str_chars(p);
    if vp.len() > vs.len() {
        return false;
    }
    let r = match_at(&vs, &vp, vs.len() - vp.len());
    r
}

/// Whether `s` contains `p`.
pub fn str_contains(s: &str, p: &str) -> (r: bool)
    ensures
        r == contains_seq(s@, p@),
{
    let vs = str_chars(s);
    let vp = str_chars(p);
    contains_sub(&vs, &vp)
}

/// Every hyphen replaced by an underscore.
pub open spec fn dash_underscore(s: Seq<char>) -> Seq<char>
    decreases s.len(),
{
    if s.len() == 0 {
        seq![]
    } else {
        dash_underscore(s.drop_last()).push(
            if s.last() == '-' {
                '_'
            } else {
                s.last()
            },
        )
    }
}

/// Replaces each hyphen in `s` by an underscore.
pub fn replace_dashes(s: &str) -> (r: String)
    ensures
        r@ == dash_underscore(s@),
{
    let v = str_chars(s);
    let n = v.len();
    let mut out: Vec<char> = Vec::new();
    let mut i: usize = 0;
    proof {
        assert(v@.take(0) =~= Seq::<char>::empty());
    }
    while i < n
        invariant
            0 <= i <= n,
            n == v@.len(),
            v@ == s@,
            out@ == dash_underscore(v@.take(i as int)),
        decreases n - i,
    {
        let c = v[i];
        proof {
            assert(v@.take(i + 1 as int).drop_last() =~= v@.take(i as int));
            assert(v@.take(i + 1 as int).last() == c);
        }
        if c == '-' {
            out.push('_');
        } else {
            out.push(c);
        }
        i = i + 1;
    }
    proof {
        assert(v@.take(n as int) =~= v@);
    }
    chars_str(&out)
}

/// The parts joined with single spaces between them.
pub open spec fn join_spaces(parts: Seq<Seq<char>>) -> Seq<char>
    decreases parts.len(),
{
    if parts.len() == 0 {
        seq![]
    } else if parts.len() == 1 {
        parts[0]
    } else {
        join_spaces(parts.drop_last()) + seq![' '] + parts.last()
    }
}

} // verus!
