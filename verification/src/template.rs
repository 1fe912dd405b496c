//! Path templates: text in which `$name` stands for a value supplied at startup.

use vstd::prelude::*;

verus! {

/// The placeholder that stands for `name` in a template: a dollar sign, then the name.
pub open spec fn token(name: Seq<char>) -> Seq<char> {
    seq!['$'] + name
}

/// Whether `pat` occurs in `text` starting at index `at`.
pub open spec fn occurs_at(text: Seq<char>, pat: Seq<char>, at: int) -> bool {
    &&& 0 <= at
    &&& at + pat.len() <= text.len()
    &&& text.subrange(at, at + pat.len()) == pat
}

/// Whether `pat` occurs anywhere in `text`.
pub open spec fn occurs_in(text: Seq<char>, pat: Seq<char>) -> bool {
    exists|at: int| occurs_at(text, pat, at)
}

/// `text` with every occurrence of the non-empty `pat` replaced by `with`.
/// Occurrences are taken leftmost first and do not overlap: after a match the
/// scan goes on behind it, and what was put in is not looked at again.
pub open spec fn replace_all(text: Seq<char>, pat: Seq<char>, with: Seq<char>) -> Seq<char>
    recommends
        pat.len() > 0,
    decreases text.len(),
{
    if text.len() == 0 {
        text
    } else if pat.len() > 0 && occurs_at(text, pat, 0) {
        with + replace_all(text.skip(pat.len() as int), pat, with)
    } else {
        seq![text[0]] + replace_all(text.skip(1), pat, with)
    }
}

/// `text` with every `$name` replaced by `value`.
pub open spec fn substitute(text: Seq<char>, name: Seq<char>, value: Seq<char>) -> Seq<char> {
    replace_all(text, token(name), value)
}

/// `template` after each pair of `subs`, in list order, was substituted in the
/// text that the pairs before it left.
pub open spec fn resolve(template: Seq<char>, subs: Seq<(Seq<char>, Seq<char>)>) -> Seq<char>
    decreases subs.len(),
{
    if subs.len() == 0 {
        template
    } else {
        substitute(resolve(template, subs.drop_last()), subs.last().0, subs.last().1)
    }
}

/// The characters of `s`, in order.
pub fn chars_of(s: &str) -> (v: Vec<char>)
    ensures
        v@ == s@,
{
    let mut v: Vec<char> = Vec::new();
    for c in it: s.chars()
        invariant
            it.seq() == s@,
            v@ == it.seq().take(it.index()),
    {
        v.push(c);
    }
    v
}

/// Unfolds `replace_all` once at index `at` of `text`.
proof fn lemma_replace_all_step(text: Seq<char>, pat: Seq<char>, with: Seq<char>, at: int)
    requires
        0 <= at < text.len(),
        pat.len() > 0,
    ensures
        occurs_at(text, pat, at) ==> replace_all(text.skip(at), pat, with) == with + replace_all(
            text.skip(at + pat.len()),
            pat,
            with,
        ),
        !occurs_at(text, pat, at) ==> replace_all(text.skip(at), pat, with) == seq![text[at]]
            + replace_all(text.skip(at + 1), pat, with),
{
    let rest = text.skip(at);
    assert(rest.skip(1) =~= text.skip(at + 1));
    if at + pat.len() <= text.len() {
        assert(rest.subrange(0, pat.len() as int) =~= text.subrange(at, at + pat.len()));
        assert(rest.skip(pat.len() as int) =~= text.skip(at + pat.len()));
    }
}

/// A text in which the pattern does not occur is left as it is.
pub proof fn lemma_replace_all_absent(text: Seq<char>, pat: Seq<char>, with: Seq<char>)
    requires
        !occurs_in(text, pat),
    ensures
        replace_all(text, pat, with) == text,
    decreases text.len(),
{
    if text.len() > 0 {
        let rest = text.skip(1);
        assert forall|at: int| !occurs_at(rest, pat, at) by {
            if occurs_at(rest, pat, at) {
                assert(rest.subrange(at, at + pat.len()) =~= text.subrange(
                    at + 1,
                    at + 1 + pat.len(),
                ));
                assert(occurs_at(text, pat, at + 1));
            }
        }
        lemma_replace_all_absent(rest, pat, with);
    }
}

/// A text in which no name of `subs` occurs as a token is a fixed point of `resolve`.
pub proof fn lemma_resolve_fixed_point(text: Seq<char>, subs: Seq<(Seq<char>, Seq<char>)>)
    requires
        forall|j: int| 0 <= j < subs.len() ==> !occurs_in(text, token(#[trigger] subs[j].0)),
    ensures
        resolve(text, subs) == text,
    decreases subs.len(),
{
    if subs.len() > 0 {
        let init = subs.drop_last();
        assert(forall|j: int| 0 <= j < init.len() ==> init[j] == subs[j]);
        lemma_resolve_fixed_point(text, init);
        let last = subs[subs.len() - 1];
        lemma_replace_all_absent(text, token(last.0), last.1);
    }
}

/// Resolving twice gives what resolving once gave, as soon as the first pass
/// leaves no token of a listed name in its result.
pub proof fn lemma_resolve_idempotent(template: Seq<char>, subs: Seq<(Seq<char>, Seq<char>)>)
    requires
        forall|j: int|
            0 <= j < subs.len() ==> !occurs_in(
                resolve(template, subs),
                token(#[trigger] subs[j].0),
            ),
    ensures
        resolve(resolve(template, subs), subs) == resolve(template, subs),
{
    lemma_resolve_fixed_point(resolve(template, subs), subs);
}

/// Whether `pat` occurs in `text` at index `at`.
fn matches_at(text: &Vec<char>, pat: &Vec<char>, at: usize) -> (found: bool)
    requires
        at <= text.len(),
    ensures
        found == occurs_at(text@, pat@, at as int),
{
    let n = text.len();
    let m = pat.len();
    if m > n - at {
        return false;
    }
    let mut j: usize = 0;
    while j < m
        invariant
            j <= m,
            n == text.len(),
            m == pat.len(),
            at + m <= n,
            forall|k: int| 0 <= k < j ==> text@[at + k] == pat@[k],
        decreases m - j,
    {
        if text[at + j] != pat[j] {
            return false;
        }
        j = j + 1;
    }
    assert(text@.subrange(at as int, at + m) =~= pat@);
    true
}

/// Replaces every `$name` in `text` by `value`.
pub fn replace_token(text: &str, name: &str, value: &str) -> (out: String)
    ensures
        out@ == substitute(text@, name@, value@),
{
    let mut tok = String::from_str("$");
    tok.append(name);
    proof {
        reveal_strlit("$");
        assert(tok@ =~= token(name@));
    }
    let pat = chars_of(tok.as_str());
    let txt = chars_of(text);
    let n = txt.len();
    let m = pat.len();
    let mut out = String::new();
    let mut seg: usize = 0;
    let mut at: usize = 0;
    assert(text@.skip(0) =~= text@);
    while at < n
        invariant
            seg <= at <= n,
            n == txt.len(),
            m == pat.len(),
            m > 0,
            txt@ == text@,
            pat@ == token(name@),
            substitute(text@, name@, value@) == out@ + text@.subrange(seg as int, at as int)
                + replace_all(text@.skip(at as int), pat@, value@),
        decreases n - at,
    {
        proof {
            lemma_replace_all_step(text@, pat@, value@, at as int);
        }
        if matches_at(&txt, &pat, at) {
            out.append(text.substring_char(seg, at));
            out.append(value);
            at = at + m;
            seg = at;
        } else {
            assert(text@.subrange(seg as int, at as int) + seq![text@[at as int]]
                =~= text@.subrange(seg as int, at + 1));
            at = at + 1;
        }
    }
    out.append(text.substring_char(seg, n));
    out
}

} // verus!
