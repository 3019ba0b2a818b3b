//! Character-level string operations used by the chat logic, each proved
//! against a specification over `Seq<char>`.
use vstd::prelude::*;
use vstd::string::*;

use crate::boundary::{char_is_whitespace, is_white_space};

verus! {

// ---------------------------------------------------------------------------
// Specifications
// ---------------------------------------------------------------------------

/// `p` occurs in `s` starting at index `i`.
pub open spec fn occurs_at(s: Seq<char>, p: Seq<char>, i: int) -> bool {
    0 <= i && i + p.len() <= s.len() && s.subrange(i, i + p.len()) == p
}

/// `p` occurs somewhere in `s` (what `str::contains` answers for a string pattern).
pub open spec fn has_substring(s: Seq<char>, p: Seq<char>) -> bool {
    exists|i: int| occurs_at(s, p, i)
}

/// Left-to-right replacement of every non-overlapping occurrence of `p`
/// by `r`, as `str::replace` does for a non-empty pattern.
pub open spec fn replaced(s: Seq<char>, p: Seq<char>, r: Seq<char>) -> Seq<char>
    decreases s.len(),
{
    if p.len() == 0 || s.len() == 0 {
        s
    } else if p.is_prefix_of(s) {
        r + replaced(s.skip(p.len() as int), p, r)
    } else {
        seq![s[0]] + replaced(s.skip(1), p, r)
    }
}

/// `s` without its leading white space.
pub open spec fn trim_start(s: Seq<char>) -> Seq<char>
    decreases s.len(),
{
    if s.len() > 0 && is_white_space(s[0]) {
        trim_start(s.skip(1))
    } else {
        s
    }
}

/// `s` without its trailing white space.
pub open spec fn trim_end(s: Seq<char>) -> Seq<char>
    decreases s.len(),
{
    if s.len() > 0 && is_white_space(s.last()) {
        trim_end(s.drop_last())
    } else {
        s
    }
}

/// `s` without leading and trailing white space (what `str::trim` returns).
pub open spec fn trimmed(s: Seq<char>) -> Seq<char> {
    trim_end(trim_start(s))
}

/// The pieces of `s` between occurrences of the separator `c`
/// (what `str::split` yields for a character pattern).
pub open spec fn split_on(s: Seq<char>, c: char) -> Seq<Seq<char>>
    decreases s.len(),
{
    if s.len() == 0 {
        seq![Seq::<char>::empty()]
    } else {
        let rest = split_on(s.drop_last(), c);
        if s.last() == c {
            rest.push(Seq::<char>::empty())
        } else {
            rest.update(rest.len() - 1, rest.last().push(s.last()))
        }
    }
}

/// The non-empty pieces of `s` between occurrences of `c`.
pub open spec fn labels(s: Seq<char>, c: char) -> Seq<Seq<char>> {
    split_on(s, c).filter(|l: Seq<char>| l.len() > 0)
}

// ---------------------------------------------------------------------------
// Lemmas
// ---------------------------------------------------------------------------

proof fn lemma_split_len(s: Seq<char>, c: char)
    ensures
        split_on(s, c).len() >= 1,
    decreases s.len(),
{
    if s.len() > 0 {
        lemma_split_len(s.drop_last(), c);
    }
}

proof fn lemma_replaced_step(s: Seq<char>, p: Seq<char>, r: Seq<char>, i: int)
    requires
        p.len() > 0,
        0 <= i < s.len(),
    ensures
        p.is_prefix_of(s.skip(i)) ==> i + p.len() <= s.len() && replaced(s.skip(i), p, r) == r
            + replaced(s.skip(i + p.len()), p, r),
        !p.is_prefix_of(s.skip(i)) ==> replaced(s.skip(i), p, r) == seq![s[i]] + replaced(
            s.skip(i + 1),
            p,
            r,
        ),
{
    assert(s.skip(i).len() > 0);
    if p.is_prefix_of(s.skip(i)) {
        assert(s.skip(i).skip(p.len() as int) =~= s.skip(i + p.len()));
    } else {
        assert(s.skip(i).skip(1) =~= s.skip(i + 1));
    }
}

// ---------------------------------------------------------------------------
// Executable operations
// ---------------------------------------------------------------------------

/// The characters of `s`, in order.
pub fn chars_of(s: &str) -> (v: Vec<char>)
    ensures
        v@ == s@,
{
    let n = s.unicode_len();
    let mut v: Vec<char> = Vec::new();
    let mut i: usize = 0;
    while i < n
        invariant
            n == s@.len(),
            i <= n,
            v@ == s@.take(i as int),
        decreases n - i,
    {
        let c = s.get_char(i);
        v.push(c);
        i = i + 1;
        assert(v@ =~= s@.take(i as int));
    }
    assert(s@.take(n as int) =~= s@);
    v
}

/// An owned copy of the characters `from..to` of `s`.
pub fn slice_owned(s: &str, from: usize, to: usize) -> (r: String)
    requires
        from <= to <= s@.len(),
    ensures
        r@ == s@.subrange(from as int, to as int),
{
    s.substring_char(from, to).to_owned()
}

/// `a` followed by `b`.
pub fn concat2(a: &str, b: &str) -> (r: String)
    ensures
        r@ == a@ + b@,
{
    let mut r = a.to_owned();
    r.append(b);
    r
}

/// Whether `p` is a prefix of the characters `v[i..]`.
pub fn matches_at(v: &Vec<char>, p: &Vec<char>, i: usize) -> (b: bool)
    requires
        i <= v@.len(),
    ensures
        b == p@.is_prefix_of(v@.skip(i as int)),
{
    let n = v.len();
    let m = p.len();
    if m > n - i {
        return false;
    }
    let mut k: usize = 0;
    while k < m
        invariant
            n == v@.len(),
            m == p@.len(),
            i + m <= n,
            k <= m,
            forall|j: int| 0 <= j < k ==> v@[i + j] == p@[j],
        decreases m - k,
    {
        if v[i + k] != p[k] {
            assert(v@.skip(i as int)[k as int] != p@[k as int]);
            return false;
        }
        k = k + 1;
    }
    assert(v@.skip(i as int).take(m as int) =~= p@);
    true
}

/// Whether `a` and `b` hold the same characters (`==` on strings).
pub fn equal_str(a: &str, b: &str) -> (r: bool)
    ensures
        r == (a@ == b@),
{
    let av = chars_of(a);
    let bv = chars_of(b);
    if av.len() != bv.len() {
        return false;
    }
    assert(av@.skip(0) =~= av@);
    let r = matches_at(&av, &bv, 0);
    proof {
        if r {
            assert(av@.take(bv@.len() as int) =~= av@);
        }
    }
    r
}

/// A copy of an optional string.
pub fn clone_opt_string(o: &Option<String>) -> (r: Option<String>)
    ensures
        r == *o,
{
    match o {
        Some(s) => Some(s.clone()),
        None => None,
    }
}

/// Whether `s` starts with `p` (`str::starts_with`).
pub fn starts_with(s: &str, p: &str) -> (b: bool)
    ensures
        b == p@.is_prefix_of(s@),
{
    let sv = chars_of(s);
    let pv = chars_of(p);
    assert(sv@.skip(0) =~= sv@);
    matches_at(&sv, &pv, 0)
}

/// Whether `s` ends with `p` (`str::ends_with`).
pub fn ends_with(s: &str, p: &str) -> (b: bool)
    ensures
        b == p@.is_suffix_of(s@),
{
    let sv = chars_of(s);
    let pv = chars_of(p);
    if pv.len() > sv.len() {
        return false;
    }
    let start = sv.len() - pv.len();
    let b = matches_at(&sv, &pv, start);
    proof {
        if b {
            assert(s@.subrange(s@.len() - p@.len(), s@.len() as int) =~= p@);
        }
        if p@.is_suffix_of(s@) {
            assert(sv@.skip(start as int).take(pv@.len() as int) =~= p@);
        }
    }
    b
}

/// Whether the character `c` occurs in `s`.
pub fn contains_char(s: &str, c: char) -> (b: bool)
    ensures
        b == s@.contains(c),
{
    let v = chars_of(s);
    let n = v.len();
    let mut i: usize = 0;
    while i < n
        invariant
            n == v@.len(),
            v@ == s@,
            i <= n,
            forall|j: int| 0 <= j < i ==> v@[j] != c,
        decreases n - i,
    {
        if v[i] == c {
            assert(s@[i as int] == c);
            return true;
        }
        i = i + 1;
    }
    false
}

/// Whether `p` occurs in `s` (`str::contains` with a string pattern).
pub fn contains_str(s: &str, p: &str) -> (b: bool)
    ensures
        b == has_substring(s@, p@),
{
    let sv = chars_of(s);
    let pv = chars_of(p);
    let n = sv.len();
    let m = pv.len();
    if m > n {
        assert(!has_substring(s@, p@));
        return false;
    }
    let mut i: usize = 0;
    while i <= n - m
        invariant
            n == sv@.len(),
            m == pv@.len(),
            sv@ == s@,
            pv@ == p@,
            m <= n,
            i <= n - m + 1,
            forall|j: int| 0 <= j < i ==> !occurs_at(s@, p@, j),
        decreases n - m + 1 - i,
    {
        if matches_at(&sv, &pv, i) {
            assert(sv@.skip(i as int).take(m as int) =~= sv@.subrange(i as int, i + m));
            assert(occurs_at(s@, p@, i as int));
            return true;
        }
        proof {
            if occurs_at(s@, p@, i as int) {
                assert(sv@.skip(i as int).take(m as int) =~= sv@.subrange(i as int, i + m));
            }
        }
        i = i + 1;
    }
    assert forall|j: int| !occurs_at(s@, p@, j) by {
        if 0 <= j < i {
        } else if occurs_at(s@, p@, j) {
            assert(j + m <= n);
        }
    }
    false
}

/// Every non-overlapping occurrence of `pat` in `s`, scanned from the left,
/// replaced by `rep` (`str::replace`).
pub fn replace_all(s: &str, pat: &str, rep: &str) -> (r: String)
    requires
        pat@.len() > 0,
    ensures
        r@ == replaced(s@, pat@, rep@),
{
    let sv = chars_of(s);
    let pv = chars_of(pat);
    let n = sv.len();
    let m = pv.len();
    let mut out = String::new();
    let mut last: usize = 0;
    let mut i: usize = 0;
    assert(s@.skip(0) =~= s@);
    assert(s@.subrange(0, 0) =~= Seq::<char>::empty());
    while i < n
        invariant
            n == sv@.len(),
            m == pv@.len(),
            sv@ == s@,
            pv@ == pat@,
            m > 0,
            last <= i <= n,
            out@ + s@.subrange(last as int, i as int) + replaced(s@.skip(i as int), pat@, rep@)
                == replaced(s@, pat@, rep@),
        decreases n - i,
    {
        let ghost before = out@ + s@.subrange(last as int, i as int);
        proof {
            lemma_replaced_step(s@, pat@, rep@, i as int);
        }
        if matches_at(&sv, &pv, i) {
            let piece = s.substring_char(last, i);
            out.append(piece);
            out.append(rep);
            i = i + m;
            last = i;
            assert(s@.subrange(last as int, i as int) =~= Seq::<char>::empty());
            assert(out@ + s@.subrange(last as int, i as int) + replaced(
                s@.skip(i as int),
                pat@,
                rep@,
            ) =~= before + (rep@ + replaced(s@.skip(i as int), pat@, rep@)));
        } else {
            assert(s@.subrange(last as int, i + 1) =~= s@.subrange(last as int, i as int).push(
                s@[i as int],
            ));
            i = i + 1;
            assert(out@ + s@.subrange(last as int, i as int) + replaced(
                s@.skip(i as int),
                pat@,
                rep@,
            ) =~= before + (seq![s@[i - 1]] + replaced(s@.skip(i as int), pat@, rep@)));
        }
    }
    let tail = s.substring_char(last, n);
    out.append(tail);
    assert(s@.skip(n as int) =~= Seq::<char>::empty());
    assert(out@ =~= replaced(s@, pat@, rep@));
    out
}

/// `s` without leading and trailing white space (`str::trim`).
pub fn trim(s: &str) -> (r: String)
    ensures
        r@ == trimmed(s@),
{
    let v = chars_of(s);
    let n = v.len();
    let mut a: usize = 0;
    assert(s@.skip(0) =~= s@);
    while a < n && char_is_whitespace(v[a])
        invariant
            n == v@.len(),
            v@ == s@,
            a <= n,
            trim_start(s@) == trim_start(s@.skip(a as int)),
        decreases n - a,
    {
        assert(s@.skip(a as int).skip(1) =~= s@.skip(a + 1));
        a = a + 1;
    }
    let ghost t = s@.skip(a as int);
    assert(trim_start(s@) == t);
    let mut b: usize = n;
    assert(t.take((b - a) as int) =~= t);
    while b > a && char_is_whitespace(v[b - 1])
        invariant
            n == v@.len(),
            v@ == s@,
            a <= b <= n,
            t == s@.skip(a as int),
            trim_end(t) == trim_end(t.take((b - a) as int)),
        decreases b,
    {
        assert(t.take((b - a) as int).drop_last() =~= t.take((b - 1 - a) as int));
        b = b - 1;
    }
    assert(trim_end(t) == t.take((b - a) as int));
    assert(t.take((b - a) as int) =~= s@.subrange(a as int, b as int));
    slice_owned(s, a, b)
}

/// `trim_start` drops a prefix, and what remains starts with a character
/// that is not white space.
proof fn lemma_trim_start_shape(s: Seq<char>)
    ensures
        trim_start(s).len() <= s.len(),
        trim_start(s) == s.skip(s.len() - trim_start(s).len()),
        trim_start(s).len() > 0 ==> !is_white_space(trim_start(s)[0]),
    decreases s.len(),
{
    if s.len() > 0 && is_white_space(s[0]) {
        lemma_trim_start_shape(s.skip(1));
        assert(s.skip(1).skip(s.skip(1).len() - trim_start(s).len()) =~= s.skip(
            s.len() - trim_start(s).len(),
        ));
    } else {
        assert(s.skip(0) =~= s);
    }
}

/// `trim_end` drops a suffix, and what remains ends with a character that
/// is not white space.
proof fn lemma_trim_end_shape(s: Seq<char>)
    ensures
        trim_end(s).len() <= s.len(),
        trim_end(s) == s.take(trim_end(s).len() as int),
        trim_end(s).len() > 0 ==> !is_white_space(trim_end(s).last()),
    decreases s.len(),
{
    if s.len() > 0 && is_white_space(s.last()) {
        lemma_trim_end_shape(s.drop_last());
        assert(s.drop_last().take(trim_end(s).len() as int) =~= s.take(trim_end(s).len() as int));
    } else {
        assert(s.take(s.len() as int) =~= s);
    }
}

/// A trimmed string neither starts nor ends with white space.
pub proof fn lemma_trimmed_ends(s: Seq<char>)
    ensures
        trimmed(s).len() > 0 ==> !is_white_space(trimmed(s)[0]) && !is_white_space(
            trimmed(s).last(),
        ),
{
    let a = trim_start(s);
    lemma_trim_start_shape(s);
    lemma_trim_end_shape(a);
    if trimmed(s).len() > 0 {
        let t = trim_end(a);
        assert(t == a.take(t.len() as int));
        assert(t[0] == a.take(t.len() as int)[0]);
        assert(trimmed(s)[0] == a[0]);
    }
}

/// A string that neither starts nor ends with white space is its own trim.
pub proof fn lemma_trim_fixed(s: Seq<char>)
    requires
        s.len() > 0 ==> !is_white_space(s[0]) && !is_white_space(s.last()),
    ensures
        trimmed(s) == s,
{
}

/// Trimming twice trims once.
pub proof fn lemma_trim_idempotent(s: Seq<char>)
    ensures
        trimmed(trimmed(s)) == trimmed(s),
{
    lemma_trimmed_ends(s);
    lemma_trim_fixed(trimmed(s));
}

// ---------------------------------------------------------------------------
// Splitting
// ---------------------------------------------------------------------------

/// The second piece of `s` split at `c`, that is `s.split(c).collect()[1]`;
/// `s` holds `c` at least once.
pub open spec fn second_piece(s: Seq<char>, c: char) -> Seq<char> {
    split_on(s, c)[1]
}

/// Splitting `t + w`, where `w` holds no separator and the last piece of `t`
/// is empty, extends that last piece to `w`.
proof fn lemma_split_append_run(t: Seq<char>, w: Seq<char>, c: char)
    requires
        split_on(t, c).last() == Seq::<char>::empty(),
        !w.contains(c),
    ensures
        split_on(t + w, c) == split_on(t, c).update(split_on(t, c).len() - 1, w),
    decreases w.len(),
{
    lemma_split_len(t, c);
    if w.len() == 0 {
        assert(t + w =~= t);
        assert(w =~= Seq::<char>::empty());
        assert(split_on(t, c).update(split_on(t, c).len() - 1, w) =~= split_on(t, c));
    } else {
        let w0 = w.drop_last();
        assert(!w0.contains(c)) by {
            if w0.contains(c) {
                let k = choose|k: int| 0 <= k < w0.len() && w0[k] == c;
                assert(w[k] == c);
            }
        }
        lemma_split_append_run(t, w0, c);
        assert((t + w).drop_last() =~= t + w0);
        assert(w.last() != c) by {
            assert(w[w.len() - 1] == w.last());
        }
        assert(w0.push(w.last()) =~= w);
        assert(split_on(t + w, c) =~= split_on(t, c).update(split_on(t, c).len() - 1, w));
    }
}

/// Appending characters never shrinks the list of pieces and never changes
/// any piece but the last.
proof fn lemma_split_extend(t: Seq<char>, u: Seq<char>, c: char)
    ensures
        split_on(t + u, c).len() >= split_on(t, c).len(),
        forall|k: int|
            0 <= k < split_on(t, c).len() - 1 ==> #[trigger] split_on(t + u, c)[k] == split_on(
                t,
                c,
            )[k],
    decreases u.len(),
{
    lemma_split_len(t, c);
    if u.len() == 0 {
        assert(t + u =~= t);
    } else {
        let u0 = u.drop_last();
        lemma_split_extend(t, u0, c);
        lemma_split_len(t + u0, c);
        assert((t + u).drop_last() =~= t + u0);
        assert((t + u).last() == u.last());
    }
}

/// Splitting a piece-free string gives just that string.
proof fn lemma_split_single(w: Seq<char>, c: char)
    requires
        !w.contains(c),
    ensures
        split_on(w, c) == seq![w],
{
    let e = Seq::<char>::empty();
    assert(split_on(e, c) == seq![e]);
    lemma_split_append_run(e, w, c);
    assert(e + w =~= w);
    assert(seq![e].update(0, w) =~= seq![w]);
}

/// The first position at or after `from` where `v` holds `c`, or `v.len()`.
fn find_char_from(v: &Vec<char>, c: char, from: usize) -> (i: usize)
    requires
        from <= v@.len(),
    ensures
        from <= i <= v@.len(),
        i < v@.len() ==> v@[i as int] == c,
        forall|j: int| from <= j < i ==> v@[j] != c,
{
    let n = v.len();
    let mut i = from;
    while i < n
        invariant
            n == v@.len(),
            from <= i <= n,
            forall|j: int| from <= j < i ==> v@[j] != c,
        decreases n - i,
    {
        if v[i] == c {
            return i;
        }
        i = i + 1;
    }
    i
}

/// What follows the first `c` in `s`, if `s` holds `c` (the second item of
/// `s.splitn(2, c)`).
pub open spec fn after_first(s: Seq<char>, c: char) -> Option<Seq<char>>
    decreases s.len(),
{
    if s.len() == 0 {
        None
    } else if s[0] == c {
        Some(s.skip(1))
    } else {
        after_first(s.skip(1), c)
    }
}

/// `after_first` from the position of the first `c`, or from its absence.
proof fn lemma_after_first(s: Seq<char>, c: char, i: int)
    requires
        0 <= i <= s.len(),
        forall|j: int| 0 <= j < i ==> s[j] != c,
        i < s.len() ==> s[i] == c,
    ensures
        i < s.len() ==> after_first(s, c) == Some(s.skip(i + 1)),
        i == s.len() ==> after_first(s, c) is None,
    decreases i,
{
    if i > 0 {
        let t = s.skip(1);
        assert forall|j: int| 0 <= j < i - 1 implies t[j] != c by {
            assert(t[j] == s[j + 1]);
        }
        lemma_after_first(t, c, i - 1);
        if i < s.len() {
            assert(t.skip(i) =~= s.skip(i + 1));
        }
    }
}

/// What follows the first `c` in `s`, if `s` holds `c`.
pub fn after_first_of(s: &str, c: char) -> (r: Option<String>)
    ensures
        r.deep_view() == after_first(s@, c),
{
    let v = chars_of(s);
    let n = v.len();
    let a = find_char_from(&v, c, 0);
    proof {
        lemma_after_first(s@, c, a as int);
    }
    if a < n {
        Some(slice_owned(s, a + 1, n))
    } else {
        None
    }
}

/// The second piece of `s` split at `c` (`s.split(c).collect::<Vec<_>>()[1]`).
pub fn second_piece_of(s: &str, c: char) -> (r: String)
    requires
        s@.contains(c),
    ensures
        r@ == second_piece(s@, c),
{
    let v = chars_of(s);
    let n = v.len();
    let a = find_char_from(&v, c, 0);
    assert(a < n) by {
        let k = choose|k: int| 0 <= k < s@.len() && s@[k] == c;
        assert(k >= a);
    }
    let b = find_char_from(&v, c, a + 1);
    proof {
        let p0 = s@.take(a as int);
        let w = s@.subrange(a + 1, b as int);
        let e = Seq::<char>::empty();
        assert(!p0.contains(c)) by {
            if p0.contains(c) {
                let k = choose|k: int| 0 <= k < p0.len() && p0[k] == c;
                assert(s@[k] == c);
            }
        }
        assert(!w.contains(c)) by {
            if w.contains(c) {
                let k = choose|k: int| 0 <= k < w.len() && w[k] == c;
                assert(s@[a + 1 + k] == c);
            }
        }
        lemma_split_single(p0, c);
        let t1 = p0.push(c);
        assert(t1.drop_last() =~= p0);
        assert(split_on(t1, c) == seq![p0, e]);
        lemma_split_append_run(t1, w, c);
        assert(seq![p0, e].update(1, w) =~= seq![p0, w]);
        let x = t1 + w;
        assert(split_on(x, c) == seq![p0, w]);
        assert(x =~= s@.take(b as int));
        let rest = s@.skip(b as int);
        assert(x + rest =~= s@);
        if b < n {
            let y = x.push(c);
            assert(y.drop_last() =~= x);
            assert(split_on(y, c) =~= seq![p0, w, e]);
            let rest2 = s@.skip(b + 1);
            assert(y + rest2 =~= s@);
            lemma_split_extend(y, rest2, c);
            assert(split_on(s@, c)[1] == w);
        } else {
            assert(rest =~= e);
            assert(x + rest =~= x);
            assert(split_on(s@, c)[1] == w);
        }
    }
    slice_owned(s, a + 1, b)
}

/// The last piece of `t` is empty when `t` is empty or ends with `c`.
proof fn lemma_split_last_empty(t: Seq<char>, c: char)
    requires
        t.len() == 0 || t.last() == c,
    ensures
        split_on(t, c).last() == Seq::<char>::empty(),
{
}

/// Filtering a sequence that ends with an empty piece ignores that piece.
proof fn lemma_labels_of_pieces(x: Seq<Seq<char>>, w: Seq<char>)
    requires
        x.len() > 0,
        x.last() == Seq::<char>::empty(),
    ensures
        x.filter(|l: Seq<char>| l.len() > 0) == x.drop_last().filter(|l: Seq<char>| l.len() > 0),
        w.len() > 0 ==> x.update(x.len() - 1, w).filter(|l: Seq<char>| l.len() > 0) == x.drop_last().filter(
            |l: Seq<char>| l.len() > 0,
        ).push(w),
{
    let pred = |l: Seq<char>| l.len() > 0;
    let d = x.drop_last();
    assert(d.push(Seq::<char>::empty()) =~= x);
    d.lemma_filter_push(Seq::<char>::empty(), pred);
    if w.len() > 0 {
        assert(d.push(w) =~= x.update(x.len() - 1, w));
        d.lemma_filter_push(w, pred);
    }
}

/// A trailing separator adds no label.
proof fn lemma_labels_trailing_sep(s: Seq<char>, c: char)
    requires
        s.len() > 0,
        s.last() == c,
    ensures
        labels(s, c) == labels(s.drop_last(), c),
{
    lemma_split_len(s.drop_last(), c);
    let x = split_on(s, c);
    assert(x == split_on(s.drop_last(), c).push(Seq::<char>::empty()));
    assert(x.drop_last() =~= split_on(s.drop_last(), c));
    lemma_labels_of_pieces(x, Seq::<char>::empty());
}

/// A separator-free run after a separator (or at the start) is one more label.
proof fn lemma_labels_run(t: Seq<char>, w: Seq<char>, c: char)
    requires
        t.len() == 0 || t.last() == c,
        w.len() > 0,
        !w.contains(c),
    ensures
        labels(t + w, c) == labels(t, c).push(w),
{
    lemma_split_len(t, c);
    lemma_split_last_empty(t, c);
    lemma_split_append_run(t, w, c);
    let x = split_on(t, c);
    lemma_labels_of_pieces(x, w);
}

/// No piece holds the separator.
pub proof fn lemma_split_pieces_free(s: Seq<char>, c: char)
    ensures
        forall|k: int| 0 <= k < split_on(s, c).len() ==> !(#[trigger] split_on(s, c)[k]).contains(c),
    decreases s.len(),
{
    if s.len() > 0 {
        lemma_split_pieces_free(s.drop_last(), c);
        lemma_split_len(s.drop_last(), c);
        let rest = split_on(s.drop_last(), c);
        if s.last() != c {
            let lp = rest.last();
            assert forall|k: int| 0 <= k < split_on(s, c).len() implies !(
            #[trigger] split_on(s, c)[k]).contains(c) by {
                if k == rest.len() - 1 {
                    let piece = lp.push(s.last());
                    assert(split_on(s, c)[k] == piece);
                    if piece.contains(c) {
                        let j = choose|j: int| 0 <= j < piece.len() && piece[j] == c;
                        if j < lp.len() {
                            assert(lp[j] == c);
                            assert(rest[rest.len() - 1] == lp);
                        }
                    }
                }
            }
        }
    }
}

/// Every label is non-empty and holds no separator.
pub proof fn lemma_labels_free(s: Seq<char>, c: char)
    ensures
        forall|k: int|
            0 <= k < labels(s, c).len() ==> (#[trigger] labels(s, c)[k]).len() > 0 && !labels(
                s,
                c,
            )[k].contains(c),
{
    let pred = |l: Seq<char>| l.len() > 0;
    lemma_split_pieces_free(s, c);
    let x = split_on(s, c);
    assert forall|k: int| 0 <= k < labels(s, c).len() implies (#[trigger] labels(s, c)[k]).len() > 0
        && !labels(s, c)[k].contains(c) by {
        x.lemma_filter_pred(pred, k);
        let elem = x.filter(pred)[k];
        assert(x.filter(pred).contains(elem));
        x.lemma_filter_contains_rev(pred, elem);
        let j = choose|j: int| 0 <= j < x.len() && x[j] == elem;
        assert(!x[j].contains(c));
    }
}

/// The labels of two separator-free, non-empty strings joined by `c`.
pub proof fn lemma_labels_of_pair(d: Seq<char>, t: Seq<char>, c: char)
    requires
        d.len() > 0,
        t.len() > 0,
        !d.contains(c),
        !t.contains(c),
    ensures
        labels(d + seq![c] + t, c) == seq![d, t],
{
    let e = Seq::<char>::empty();
    assert(labels(e, c) =~= Seq::<Seq<char>>::empty()) by {
        assert(split_on(e, c) == seq![e]);
        reveal_with_fuel(Seq::<_>::filter, 2);
    }
    lemma_labels_run(e, d, c);
    assert(e + d =~= d);
    let dc = d + seq![c];
    assert(dc.drop_last() =~= d);
    assert(dc.last() == c);
    lemma_labels_trailing_sep(dc, c);
    lemma_labels_run(dc, t, c);
    assert(labels(d, c) =~= seq![d]);
    assert(labels(d + seq![c] + t, c) =~= seq![d, t]);
}

/// Every character of a piece is a character of `s`.
proof fn lemma_split_pieces_chars(s: Seq<char>, c: char)
    ensures
        forall|k: int, j: int|
            0 <= k < split_on(s, c).len() && 0 <= j < split_on(s, c)[k].len() ==> s.contains(
                #[trigger] split_on(s, c)[k][j],
            ),
    decreases s.len(),
{
    if s.len() > 0 {
        let p = s.drop_last();
        lemma_split_pieces_chars(p, c);
        lemma_split_len(p, c);
        let rest = split_on(p, c);
        assert forall|k: int, j: int|
            0 <= k < split_on(s, c).len() && 0 <= j < split_on(s, c)[k].len() implies s.contains(
            #[trigger] split_on(s, c)[k][j]) by {
            let x = split_on(s, c)[k][j];
            if x == s.last() {
                assert(s[s.len() - 1] == x);
            } else {
                if s.last() != c && k == rest.len() - 1 {
                    assert(split_on(s, c)[k] == rest.last().push(s.last()));
                    assert(j < rest.last().len());
                    assert(rest[k][j] == x);
                } else {
                    assert(k < rest.len());
                    assert(split_on(s, c)[k] == rest[k]);
                }
                assert(p.contains(x));
                let i = choose|i: int| 0 <= i < p.len() && p[i] == x;
                assert(s[i] == x);
            }
        }
    }
}

/// Every character of a label is a character of `s`.
pub proof fn lemma_labels_chars(s: Seq<char>, c: char)
    ensures
        forall|k: int, j: int|
            0 <= k < labels(s, c).len() && 0 <= j < labels(s, c)[k].len() ==> s.contains(
                #[trigger] labels(s, c)[k][j],
            ),
{
    let pred = |l: Seq<char>| l.len() > 0;
    lemma_split_pieces_chars(s, c);
    let x = split_on(s, c);
    assert forall|k: int, j: int|
        0 <= k < labels(s, c).len() && 0 <= j < labels(s, c)[k].len() implies s.contains(
        #[trigger] labels(s, c)[k][j]) by {
        let elem = x.filter(pred)[k];
        assert(x.filter(pred).contains(elem));
        x.lemma_filter_contains_rev(pred, elem);
        let i = choose|i: int| 0 <= i < x.len() && x[i] == elem;
        assert(x[i][j] == elem[j]);
    }
}

/// Positions `(p, e)` of the last label of `v[..end]` (`p == e` when there is
/// none), and what remains before it.
fn last_label(v: &Vec<char>, c: char, end: usize) -> (r: (usize, usize))
    requires
        end <= v@.len(),
    ensures
        r.0 <= r.1 <= end,
        r.0 == 0 || v@[r.0 - 1] == c,
        r.0 < r.1 ==> labels(v@.take(end as int), c) == labels(v@.take(r.0 as int), c).push(
            v@.subrange(r.0 as int, r.1 as int),
        ),
        r.0 == r.1 ==> labels(v@.take(end as int), c).len() == 0,
{
    let mut e = end;
    while e > 0 && v[e - 1] == c
        invariant
            e <= end <= v@.len(),
            labels(v@.take(end as int), c) == labels(v@.take(e as int), c),
        decreases e,
    {
        proof {
            let t = v@.take(e as int);
            assert(t.drop_last() =~= v@.take(e - 1));
            lemma_labels_trailing_sep(t, c);
        }
        e = e - 1;
    }
    let mut p = e;
    while p > 0 && v[p - 1] != c
        invariant
            p <= e <= end <= v@.len(),
            forall|j: int| p <= j < e ==> v@[j] != c,
        decreases p,
    {
        p = p - 1;
    }
    proof {
        let w = v@.subrange(p as int, e as int);
        let t = v@.take(p as int);
        assert(!w.contains(c)) by {
            if w.contains(c) {
                let k = choose|k: int| 0 <= k < w.len() && w[k] == c;
                assert(v@[p + k] == c);
            }
        }
        assert(t + w =~= v@.take(e as int));
        if p < e {
            lemma_labels_run(t, w, c);
        } else {
            assert(p == 0);
            assert(v@.take(e as int) =~= Seq::<char>::empty());
            assert(split_on(Seq::<char>::empty(), c) == seq![Seq::<char>::empty()]);
            reveal_with_fuel(Seq::<_>::filter, 2);
        }
    }
    (p, e)
}

/// Whether `s` split at `c` has at least two non-empty labels.
pub fn has_two_labels(s: &str, c: char) -> (b: bool)
    ensures
        b == (labels(s@, c).len() >= 2),
{
    let v = chars_of(s);
    let n = v.len();
    assert(v@.take(n as int) =~= s@);
    let (p1, e1) = last_label(&v, c, n);
    if p1 == e1 {
        return false;
    }
    let (p2, e2) = last_label(&v, c, p1);
    p2 < e2
}

/// The last two labels of `s` split at `c`, the one before the last first.
pub fn last_two_labels(s: &str, c: char) -> (r: (String, String))
    requires
        labels(s@, c).len() >= 2,
    ensures
        r.0@ == labels(s@, c)[labels(s@, c).len() - 2],
        r.1@ == labels(s@, c)[labels(s@, c).len() - 1],
{
    let v = chars_of(s);
    let n = v.len();
    assert(v@.take(n as int) =~= s@);
    let (p1, e1) = last_label(&v, c, n);
    let (p2, e2) = last_label(&v, c, p1);
    let last = slice_owned(s, p1, e1);
    let before = slice_owned(s, p2, e2);
    (before, last)
}

} // verus!
