//! The placeholder grammar and the text operations built on it.
//!
//! A placeholder is `{{name}}` where `name` is an identifier: an ASCII letter
//! or underscore followed by ASCII letters, digits or underscores.

use vstd::prelude::*;

verus! {

/// A character that may begin an identifier.
pub open spec fn is_ident_start(c: char) -> bool {
    ('a' <= c && c <= 'z') || ('A' <= c && c <= 'Z') || c == '_'
}

/// A character that may continue an identifier.
pub open spec fn is_ident_char(c: char) -> bool {
    is_ident_start(c) || ('0' <= c && c <= '9')
}

/// `s` is a well-formed placeholder name.
pub open spec fn is_identifier(s: Seq<char>) -> bool {
    &&& s.len() > 0
    &&& is_ident_start(s[0])
    &&& forall|i: int| 1 <= i < s.len() ==> #[trigger] is_ident_char(s[i])
}

/// The characters of `text` from `i` up to `j + 2` spell a placeholder whose
/// name occupies `i + 2 .. j`.
pub open spec fn placeholder_span(text: Seq<char>, i: int, j: int) -> bool {
    &&& 0 <= i
    &&& i + 2 < j
    &&& j + 2 <= text.len()
    &&& text[i] == '{'
    &&& text[i + 1] == '{'
    &&& is_identifier(text.subrange(i + 2, j))
    &&& text[j] == '}'
    &&& text[j + 1] == '}'
}

/// `text` holds at least one placeholder.
pub open spec fn has_placeholder(text: Seq<char>) -> bool {
    exists|i: int, j: int| placeholder_span(text, i, j)
}

fn ident_start(c: char) -> (r: bool)
    ensures
        r == is_ident_start(c),
{
    ('a' <= c && c <= 'z') || ('A' <= c && c <= 'Z') || c == '_'
}

fn ident_char(c: char) -> (r: bool)
    ensures
        r == is_ident_char(c),
{
    ident_start(c) || ('0' <= c && c <= '9')
}

/// The characters of `s`, in order.
pub fn chars_of(s: &str) -> (r: Vec<char>)
    ensures
        r@ == s@,
{
    let mut out: Vec<char> = Vec::new();
    for c in it: s.chars()
        invariant
            out@ == it.seq().take(it.index() as int),
    {
        out.push(c);
    }
    out
}


/// Where a placeholder begins at `i`, the index at which its name ends.
/// Returns `None` when no placeholder begins at `i`.
fn span_end_at(t: &Vec<char>, i: usize) -> (r: Option<usize>)
    requires
        i <= t@.len(),
    ensures
        match r {
            Some(j) => placeholder_span(t@, i as int, j as int),
            None => forall|j: int| !placeholder_span(t@, i as int, j),
        },
{
    let n = t.len();
    if n - i < 5 || t[i] != '{' || t[i + 1] != '{' || !ident_start(t[i + 2]) {
        return None;
    }
    let mut k: usize = i + 3;
    while k < n && ident_char(t[k])
        invariant
            i + 3 <= k <= n,
            n == t@.len(),
            n - i >= 5,
            t@[i as int] == '{' && t@[i + 1] == '{',
            is_ident_start(t@[i + 2]),
            forall|m: int| i + 3 <= m < k ==> is_ident_char(#[trigger] t@[m]),
        decreases n - k,
    {
        k = k + 1;
    }
    proof {
        assert forall|j: int| placeholder_span(t@, i as int, j) implies j == k by {
            let name = t@.subrange(i + 2, j);
            if j < k {
                assert(is_ident_char(t@[j]));
            } else if j > k {
                assert(name[k - i - 2] == t@[k as int]);
                assert(is_ident_char(name[k - i - 2]));
            }
        }
    }
    if n - k >= 2 && t[k] == '}' && t[k + 1] == '}' {
        proof {
            let name = t@.subrange(i + 2, k as int);
            assert forall|m: int| 1 <= m < name.len() implies #[trigger] is_ident_char(name[m]) by {
                assert(name[m] == t@[i + 2 + m]);
            }
        }
        Some(k)
    } else {
        None
    }
}

/// Whether `t` holds a placeholder anywhere.
pub fn contains_placeholder(t: &Vec<char>) -> (r: bool)
    ensures
        r == has_placeholder(t@),
{
    let n = t.len();
    let mut i: usize = 0;
    while i < n
        invariant
            i <= n,
            n == t@.len(),
            forall|a: int, b: int| 0 <= a < i ==> !placeholder_span(t@, a, b),
        decreases n - i,
    {
        if span_end_at(t, i).is_some() {
            return true;
        }
        i = i + 1;
    }
    false
}


/// The placeholder that stands for the variable `name`.
pub open spec fn placeholder(name: Seq<char>) -> Seq<char> {
    seq!['{', '{'] + name + seq!['}', '}']
}

/// `pat` occurs in `t` starting at index `i`.
pub open spec fn occurs_at(t: Seq<char>, pat: Seq<char>, i: int) -> bool {
    0 <= i && i + pat.len() <= t.len() && t.subrange(i, i + pat.len()) == pat
}

/// `t` with every occurrence of `pat` replaced by `v`, scanning from the left
/// and resuming after each replaced occurrence.
pub open spec fn replace_all(t: Seq<char>, pat: Seq<char>, v: Seq<char>) -> Seq<char>
    decreases t.len(),
{
    if pat.len() == 0 || t.len() < pat.len() {
        t
    } else if t.subrange(0, pat.len() as int) == pat {
        v + replace_all(t.subrange(pat.len() as int, t.len() as int), pat, v)
    } else {
        seq![t[0]] + replace_all(t.subrange(1, t.len() as int), pat, v)
    }
}

/// Whether `name` is a well-formed placeholder name.
pub fn valid_name(name: &str) -> (r: bool)
    ensures
        r == is_identifier(name@),
{
    let cs = chars_of(name);
    let n = cs.len();
    if n == 0 || !ident_start(cs[0]) {
        return false;
    }
    let mut i: usize = 1;
    while i < n
        invariant
            1 <= i <= n,
            n == cs@.len(),
            cs@ == name@,
            is_ident_start(cs@[0]),
            forall|m: int| 1 <= m < i ==> #[trigger] is_ident_char(cs@[m]),
        decreases n - i,
    {
        if !ident_char(cs[i]) {
            return false;
        }
        i = i + 1;
    }
    true
}

fn placeholder_chars(name: &str) -> (r: Vec<char>)
    ensures
        r@ == placeholder(name@),
{
    let cs = chars_of(name);
    let mut out: Vec<char> = Vec::new();
    out.push('{');
    out.push('{');
    let n = cs.len();
    let mut i: usize = 0;
    while i < n
        invariant
            i <= n,
            n == cs@.len(),
            out@ == seq!['{', '{'] + cs@.take(i as int),
        decreases n - i,
    {
        out.push(cs[i]);
        proof {
            assert(cs@.take(i + 1) == cs@.take(i as int).push(cs@[i as int]));
        }
        i = i + 1;
    }
    out.push('}');
    out.push('}');
    proof {
        assert(cs@.take(n as int) == cs@);
    }
    out
}

fn occurs_at_exec(t: &Vec<char>, pat: &Vec<char>, i: usize) -> (r: bool)
    requires
        i <= t@.len(),
    ensures
        r == occurs_at(t@, pat@, i as int),
{
    let n = t.len();
    let p = pat.len();
    if n - i < p {
        return false;
    }
    let mut k: usize = 0;
    while k < p
        invariant
            k <= p,
            p == pat@.len(),
            n == t@.len(),
            i + p <= n,
            forall|m: int| 0 <= m < k ==> t@[i + m] == pat@[m],
        decreases p - k,
    {
        if t[i + k] != pat[k] {
            proof {
                assert(t@.subrange(i as int, i + p)[k as int] != pat@[k as int]);
            }
            return false;
        }
        k = k + 1;
    }
    proof {
        assert(t@.subrange(i as int, i + p) =~= pat@);
    }
    true
}

proof fn lemma_replace_step(t: Seq<char>, pat: Seq<char>, v: Seq<char>, i: int)
    requires
        pat.len() > 0,
        0 <= i < t.len(),
    ensures
        occurs_at(t, pat, i) ==> replace_all(t.subrange(i, t.len() as int), pat, v) == v
            + replace_all(t.subrange(i + pat.len(), t.len() as int), pat, v),
        !occurs_at(t, pat, i) ==> replace_all(t.subrange(i, t.len() as int), pat, v) == seq![
            t[i],
        ] + replace_all(t.subrange(i + 1, t.len() as int), pat, v),
{
    let s = t.subrange(i, t.len() as int);
    if s.len() >= pat.len() {
        assert(s.subrange(0, pat.len() as int) =~= t.subrange(i, i + pat.len()));
        assert(s.subrange(pat.len() as int, s.len() as int) =~= t.subrange(
            i + pat.len(),
            t.len() as int,
        ));
    }
    assert(s.subrange(1, s.len() as int) =~= t.subrange(i + 1, t.len() as int));
}

/// `text` with every occurrence of the placeholder for `name` replaced by `value`.
pub fn replace_placeholder(text: &str, name: &str, value: &str) -> (r: String)
    ensures
        r@ == replace_all(text@, placeholder(name@), value@),
{
    let t = chars_of(text);
    let pat = placeholder_chars(name);
    let n = t.len();
    let p = pat.len();
    let mut out = String::new();
    let mut seg: usize = 0;
    let mut i: usize = 0;
    proof {
        assert(t@.subrange(0, n as int) =~= t@);
        assert(t@.subrange(0, 0) =~= Seq::<char>::empty());
        assert(out@ + Seq::<char>::empty() =~= Seq::<char>::empty());
    }
    while i < n
        invariant
            seg <= i <= n,
            n == t@.len(),
            t@ == text@,
            p == pat@.len(),
            pat@ == placeholder(name@),
            out@ + t@.subrange(seg as int, i as int) + replace_all(
                t@.subrange(i as int, n as int),
                pat@,
                value@,
            ) == replace_all(t@, pat@, value@),
        decreases n - i,
    {
        proof {
            lemma_replace_step(t@, pat@, value@, i as int);
        }
        if occurs_at_exec(&t, &pat, i) {
            let piece = text.substring_char(seg, i);
            out.append(piece);
            out.append(value);
            proof {
                assert(t@.subrange(i + p, i + p) =~= Seq::<char>::empty());
            }
            i = i + p;
            seg = i;
        } else {
            proof {
                assert(t@.subrange(seg as int, i + 1) =~= t@.subrange(seg as int, i as int).push(
                    t@[i as int],
                ));
            }
            i = i + 1;
        }
    }
    let rest = text.substring_char(seg, n);
    out.append(rest);
    proof {
        assert(t@.subrange(0, n as int) =~= t@);
        assert(t@.subrange(n as int, n as int) =~= Seq::<char>::empty());
    }
    out
}


/// `pat` occurs somewhere in `t`.
pub open spec fn contains(t: Seq<char>, pat: Seq<char>) -> bool {
    exists|i: int| occurs_at(t, pat, i)
}

/// `t` holds a `{{` followed, at once or later, by a `}}`.
pub open spec fn has_brace_pair(t: Seq<char>) -> bool {
    exists|i: int, j: int|
        0 <= i && i + 2 <= j && j + 2 <= t.len() && t[i] == '{' && t[i + 1] == '{' && t[j] == '}'
            && #[trigger] t[j + 1] == '}' && #[trigger] t[i + 1] == '{'
}

/// The occurrences of `pat` in `t` found by a left-to-right scan that resumes
/// after each occurrence.
pub open spec fn count_matches(t: Seq<char>, pat: Seq<char>) -> nat
    decreases t.len(),
{
    if pat.len() == 0 || t.len() < pat.len() {
        0
    } else if t.subrange(0, pat.len() as int) == pat {
        1 + count_matches(t.subrange(pat.len() as int, t.len() as int), pat)
    } else {
        count_matches(t.subrange(1, t.len() as int), pat)
    }
}

/// The segments `segs` written one after another with `sep` between each two.
pub open spec fn join(segs: Seq<Seq<char>>, sep: Seq<char>) -> Seq<char>
    decreases segs.len(),
{
    if segs.len() == 0 {
        Seq::empty()
    } else if segs.len() == 1 {
        segs[0]
    } else {
        segs[0] + sep + join(segs.drop_first(), sep)
    }
}

/// Text without a `{{` that is later followed by `}}` holds no placeholder.
pub proof fn lemma_no_braces_no_placeholder(t: Seq<char>)
    requires
        !has_brace_pair(t),
    ensures
        !has_placeholder(t),
{
    if has_placeholder(t) {
        let (i, j) = choose|i: int, j: int| placeholder_span(t, i, j);
        assert(t[j + 1] == '}' && t[i + 1] == '{');
    }
}

/// Replacing a pattern that does not occur changes nothing.
pub proof fn lemma_replace_absent(t: Seq<char>, pat: Seq<char>, v: Seq<char>)
    requires
        !contains(t, pat),
    ensures
        replace_all(t, pat, v) == t,
    decreases t.len(),
{
    if pat.len() == 0 || t.len() < pat.len() {
    } else {
        assert(!occurs_at(t, pat, 0));
        let rest = t.subrange(1, t.len() as int);
        assert forall|i: int| !occurs_at(rest, pat, i) by {
            if occurs_at(rest, pat, i) {
                assert(t.subrange(i + 1, i + 1 + pat.len()) =~= rest.subrange(i, i + pat.len()));
                assert(occurs_at(t, pat, i + 1));
            }
        }
        lemma_replace_absent(rest, pat, v);
        assert(seq![t[0]] + rest =~= t);
    }
}

/// Resolving a variable again, once its placeholder no longer occurs, leaves
/// the text unchanged.
pub proof fn lemma_resolve_idempotent(t: Seq<char>, name: Seq<char>, v: Seq<char>)
    requires
        !contains(replace_all(t, placeholder(name), v), placeholder(name)),
    ensures
        replace_all(replace_all(t, placeholder(name), v), placeholder(name), v) == replace_all(
            t,
            placeholder(name),
            v,
        ),
{
    lemma_replace_absent(replace_all(t, placeholder(name), v), placeholder(name), v);
}

proof fn lemma_join_prepend(segs: Seq<Seq<char>>, sep: Seq<char>, c: Seq<char>)
    requires
        segs.len() >= 1,
    ensures
        join(segs.update(0, c + segs[0]), sep) == c + join(segs, sep),
        join(segs, sep).len() >= segs[0].len(),
        join(segs, sep).subrange(0, segs[0].len() as int) == segs[0],
{
    let s2 = segs.update(0, c + segs[0]);
    if segs.len() == 1 {
        assert(segs[0].subrange(0, segs[0].len() as int) =~= segs[0]);
    } else {
        assert(s2.drop_first() =~= segs.drop_first());
        assert(c + segs[0] + sep + join(segs.drop_first(), sep) =~= c + (segs[0] + sep + join(
            segs.drop_first(),
            sep,
        )));
        let rest = sep + join(segs.drop_first(), sep);
        assert(segs[0] + sep + join(segs.drop_first(), sep) =~= segs[0] + rest);
        assert((segs[0] + rest).subrange(0, segs[0].len() as int) =~= segs[0]);
    }
}

/// Resolving the variable `name` to `v` is an order-preserving substitution:
/// `t` splits into segments around the occurrences of its placeholder, as many
/// as found plus one, none of which holds the placeholder; the result is the
/// same segments with `v` in place of each occurrence.
pub proof fn lemma_resolve_substitutes(t: Seq<char>, name: Seq<char>, v: Seq<char>) -> (segs: Seq<
    Seq<char>,
>)
    requires
        is_identifier(name),
    ensures
        segs.len() == count_matches(t, placeholder(name)) + 1,
        join(segs, placeholder(name)) == t,
        join(segs, v) == replace_all(t, placeholder(name), v),
        forall|k: int| 0 <= k < segs.len() ==> !contains(#[trigger] segs[k], placeholder(name)),
{
    lemma_segments(t, placeholder(name), v)
}

proof fn lemma_segments(t: Seq<char>, pat: Seq<char>, v: Seq<char>) -> (segs: Seq<Seq<char>>)
    requires
        pat.len() > 0,
    ensures
        segs.len() == count_matches(t, pat) + 1,
        join(segs, pat) == t,
        join(segs, v) == replace_all(t, pat, v),
        forall|k: int| 0 <= k < segs.len() ==> !contains(#[trigger] segs[k], pat),
    decreases t.len(),
{
    let p = pat.len() as int;
    if t.len() < pat.len() {
        let segs = seq![t];
        assert forall|k: int| 0 <= k < segs.len() implies !contains(#[trigger] segs[k], pat) by {
            assert(segs[k] == t);
        }
        segs
    } else if t.subrange(0, p) == pat {
        let rest = t.subrange(p, t.len() as int);
        let tail = lemma_segments(rest, pat, v);
        let segs = seq![Seq::<char>::empty()] + tail;
        assert(segs.drop_first() =~= tail);
        assert(Seq::<char>::empty() + pat + rest =~= t);
        assert(Seq::<char>::empty() + v + replace_all(rest, pat, v) =~= v + replace_all(
            rest,
            pat,
            v,
        ));
        assert forall|k: int| 0 <= k < segs.len() implies !contains(#[trigger] segs[k], pat) by {
            if k > 0 {
                assert(segs[k] == tail[k - 1]);
            }
        }
        segs
    } else {
        let rest = t.subrange(1, t.len() as int);
        let tail = lemma_segments(rest, pat, v);
        let c = seq![t[0]];
        let segs = tail.update(0, c + tail[0]);
        lemma_join_prepend(tail, pat, c);
        lemma_join_prepend(tail, v, c);
        assert(c + rest =~= t);
        assert forall|k: int| 0 <= k < segs.len() implies !contains(#[trigger] segs[k], pat) by {
            if k == 0 {
                let s0 = segs[0];
                assert forall|i: int| !occurs_at(s0, pat, i) by {
                    if occurs_at(s0, pat, i) {
                        if i == 0 {
                            assert(s0 == t.subrange(0, s0.len() as int)) by {
                                assert(join(tail, pat).subrange(0, tail[0].len() as int)
                                    == tail[0]);
                                assert(c + join(tail, pat) == t);
                                assert(t.subrange(0, s0.len() as int) =~= c + join(
                                    tail,
                                    pat,
                                ).subrange(0, tail[0].len() as int));
                            }
                            assert(t.subrange(0, p) =~= s0.subrange(0, p));
                        } else {
                            assert(tail[0].subrange(i - 1, i - 1 + p) =~= s0.subrange(i, i + p));
                            assert(occurs_at(tail[0], pat, i - 1));
                        }
                    }
                }
            } else {
                assert(segs[k] == tail[k]);
            }
        }
        segs
    }
}

/// Whether the texts `a` and `b` are the same.
pub fn same_text(a: &str, b: &str) -> (r: bool)
    ensures
        r == (a@ == b@),
{
    let x = chars_of(a);
    let y = chars_of(b);
    if x.len() != y.len() {
        return false;
    }
    let n = x.len();
    let mut i: usize = 0;
    while i < n
        invariant
            i <= n,
            n == x@.len() && n == y@.len(),
            x@ == a@ && y@ == b@,
            forall|m: int| 0 <= m < i ==> x@[m] == y@[m],
        decreases n - i,
    {
        if x[i] != y[i] {
            assert(x@[i as int] != y@[i as int]);
            return false;
        }
        i = i + 1;
    }
    proof {
        assert(x@ =~= y@);
    }
    true
}


/// A character that can appear in a placeholder: a brace or an identifier
/// character.
pub open spec fn placeholder_char(c: char) -> bool {
    c == '{' || c == '}' || is_ident_char(c)
}

proof fn lemma_placeholder_chars(name: Seq<char>)
    requires
        is_identifier(name),
    ensures
        forall|j: int|
            0 <= j < placeholder(name).len() ==> placeholder_char(#[trigger] placeholder(name)[j]),
{
    let p = placeholder(name);
    assert forall|j: int| 0 <= j < p.len() implies placeholder_char(#[trigger] p[j]) by {
        if 2 <= j < 2 + name.len() {
            assert(p[j] == name[j - 2]);
            if j > 2 {
                assert(is_ident_char(name[j - 2]));
            }
        }
    }
}

proof fn lemma_join_free(segs: Seq<Seq<char>>, pat: Seq<char>, v: Seq<char>)
    requires
        segs.len() >= 1,
        pat.len() > 0,
        v.len() > 0,
        forall|k: int| 0 <= k < segs.len() ==> !contains(#[trigger] segs[k], pat),
        forall|j: int| 0 <= j < pat.len() ==> placeholder_char(#[trigger] pat[j]),
        forall|j: int| 0 <= j < v.len() ==> !placeholder_char(#[trigger] v[j]),
    ensures
        !contains(join(segs, v), pat),
    decreases segs.len(),
{
    if segs.len() == 1 {
        assert(!contains(segs[0], pat));
    } else {
        let rest = segs.drop_first();
        assert forall|k: int| 0 <= k < rest.len() implies !contains(#[trigger] rest[k], pat) by {
            assert(rest[k] == segs[k + 1]);
        }
        lemma_join_free(rest, pat, v);
        let s0 = segs[0];
        let tail = join(rest, v);
        let whole = join(segs, v);
        assert(whole == s0 + v + tail);
        let a = s0.len() as int;
        let b = a + v.len();
        let p = pat.len() as int;
        assert forall|i: int| !occurs_at(whole, pat, i) by {
            if occurs_at(whole, pat, i) {
                if i + p <= a {
                    assert(s0.subrange(i, i + p) =~= whole.subrange(i, i + p));
                    assert(occurs_at(s0, pat, i));
                    assert(!contains(segs[0], pat));
                } else if i < b {
                    let m = if i < a {
                        a
                    } else {
                        i
                    };
                    assert(whole[m] == v[m - a]);
                    assert(whole.subrange(i, i + p)[m - i] == pat[m - i]);
                    assert(placeholder_char(pat[m - i]));
                } else {
                    assert(tail.subrange(i - b, i - b + p) =~= whole.subrange(i, i + p));
                    assert(occurs_at(tail, pat, i - b));
                }
            }
        }
    }
}

/// Where the value is not empty and holds no brace and no identifier
/// character, resolving a variable leaves no occurrence of its placeholder.
pub proof fn lemma_resolve_removes_all(t: Seq<char>, name: Seq<char>, v: Seq<char>)
    requires
        is_identifier(name),
        v.len() > 0,
        forall|j: int| 0 <= j < v.len() ==> !placeholder_char(#[trigger] v[j]),
    ensures
        !contains(replace_all(t, placeholder(name), v), placeholder(name)),
{
    let segs = lemma_resolve_substitutes(t, name, v);
    lemma_placeholder_chars(name);
    lemma_join_free(segs, placeholder(name), v);
}

} // verus!
