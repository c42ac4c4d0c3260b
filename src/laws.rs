//! Properties of the scanner that relate several reads.
use vstd::prelude::*;
use crate::parse::{read_with, Parseable};
use crate::scanner::{read_many, ScanError};
use crate::tokens::{
    is_gap, is_line_end, is_separator, is_word, line_content, next_token, skip_separators,
    skip_word,
};

verus! {

/// The words `ts`, each after the gap of the same index.
pub open spec fn spaced(gaps: Seq<Seq<char>>, ts: Seq<Seq<char>>) -> Seq<char>
    decreases ts.len(),
{
    if ts.len() == 0 || gaps.len() == 0 {
        Seq::empty()
    } else {
        spaced(gaps.drop_last(), ts.drop_last()) + gaps.last() + ts.last()
    }
}

proof fn lemma_skip_gap(x: Seq<char>, g: Seq<char>, i: int)
    requires
        0 <= i <= g.len() <= x.len(),
        is_gap(g),
        g == x.take(g.len() as int),
        g.len() < x.len() ==> !is_separator(x[g.len() as int]),
    ensures
        skip_separators(x, i) == g.len(),
    decreases g.len() - i,
{
    if i < g.len() {
        assert(x[i] == g[i]);
        lemma_skip_gap(x, g, i + 1);
    }
}

proof fn lemma_skip_word(x: Seq<char>, a: int, b: int, i: int)
    requires
        0 <= a <= i <= b < x.len(),
        forall|k: int| a <= k < b ==> !is_separator(#[trigger] x[k]),
        is_separator(x[b]),
    ensures
        skip_word(x, i) == b,
    decreases b - i,
{
    if i < b {
        lemma_skip_word(x, a, b, i + 1);
    }
}

/// A word between a gap and a separator is the next token, and the input
/// after it starts at that separator.
pub proof fn lemma_token_after_gap(g: Seq<char>, t: Seq<char>, e: Seq<char>)
    requires
        is_gap(g),
        is_word(t),
        e.len() > 0,
        is_separator(e[0]),
    ensures
        next_token(g + t + e) == Some((t, e)),
{
    let x = g + t + e;
    let a = g.len() as int;
    let b = a + t.len();
    assert(g =~= x.take(a));
    assert(x[a] == t[0]);
    lemma_skip_gap(x, g, 0);
    assert forall|k: int| a <= k < b implies !is_separator(#[trigger] x[k]) by {
        assert(x[k] == t[k - a]);
    }
    assert(x[b] == e[0]);
    lemma_skip_word(x, a, b, a);
    assert(x.subrange(a, b) =~= t);
    assert(x.skip(b) =~= e);
}

/// Values come back exactly and in order: where `T` is read from one token
/// converted by `conv`, and the input holds the words `ts`, each after a run
/// of separators (which may be empty before the first), with a separator
/// after the last, reading `ts.len()` values of `T` one after another gives
/// each word converted, in order, and what follows the last word is left
/// unread.
pub proof fn lemma_values_in_order<T: Parseable>(
    conv: spec_fn(Seq<char>) -> Option<<T as DeepView>::V>,
    gaps: Seq<Seq<char>>,
    ts: Seq<Seq<char>>,
    end: Seq<char>,
)
    requires
        forall|s: Seq<char>| #[trigger] T::spec_read(s) == read_with(s, conv),
        gaps.len() == ts.len(),
        forall|i: int| 0 <= i < ts.len() ==> is_word(#[trigger] ts[i]),
        forall|i: int| 0 <= i < ts.len() ==> conv(#[trigger] ts[i]) is Some,
        forall|i: int| 0 <= i < gaps.len() ==> is_gap(#[trigger] gaps[i]),
        forall|i: int| 1 <= i < gaps.len() ==> (#[trigger] gaps[i]).len() > 0,
        ts.len() > 0 ==> end.len() > 0 && is_separator(end[0]),
    ensures
        read_many::<T>(spaced(gaps, ts) + end, ts.len()) == Ok::<_, ScanError>(
            (ts.map_values(|t: Seq<char>| conv(t)->Some_0), end),
        ),
    decreases ts.len(),
{
    let n = ts.len();
    if n > 0 {
        let g = gaps.last();
        let t = ts.last();
        let tail = g + t + end;
        let gs = gaps.drop_last();
        let ws = ts.drop_last();
        assert(spaced(gaps, ts) + end =~= spaced(gs, ws) + tail);
        if n > 1 {
            assert(gaps[n - 1] == g);
            assert(tail[0] == g[0]);
        }
        assert(forall|i: int| 0 <= i < ws.len() ==> ws[i] == ts[i]);
        assert(forall|i: int| 0 <= i < gs.len() ==> gs[i] == gaps[i]);
        lemma_values_in_order::<T>(conv, gs, ws, tail);
        lemma_token_after_gap(g, t, end);
        assert(conv(ts[n - 1]) is Some);
        assert(T::spec_read(tail) == Ok::<_, ScanError>((conv(t)->Some_0, end)));
        assert(ws.map_values(|t: Seq<char>| conv(t)->Some_0).push(conv(t)->Some_0)
            =~= ts.map_values(|t: Seq<char>| conv(t)->Some_0));
    } else {
        assert(ts.map_values(|t: Seq<char>| conv(t)->Some_0)
            =~= Seq::<<T as DeepView>::V>::empty());
        assert(spaced(gaps, ts) + end =~= end);
    }
}

/// Raw tokens come back exactly and in order: the words `ts`, laid out as
/// for [`lemma_values_in_order`], read as text give `ts` itself.
pub proof fn lemma_tokens_in_order(gaps: Seq<Seq<char>>, ts: Seq<Seq<char>>, end: Seq<char>)
    requires
        gaps.len() == ts.len(),
        forall|i: int| 0 <= i < ts.len() ==> is_word(#[trigger] ts[i]),
        forall|i: int| 0 <= i < gaps.len() ==> is_gap(#[trigger] gaps[i]),
        forall|i: int| 1 <= i < gaps.len() ==> (#[trigger] gaps[i]).len() > 0,
        ts.len() > 0 ==> end.len() > 0 && is_separator(end[0]),
    ensures
        read_many::<String>(spaced(gaps, ts) + end, ts.len()) == Ok::<_, ScanError>((ts, end)),
{
    let conv = |t: Seq<char>| Some(t);
    assert forall|s: Seq<char>| #[trigger] String::spec_read(s) == read_with(s, conv) by {}
    lemma_values_in_order::<String>(conv, gaps, ts, end);
    assert(ts.map_values(|t: Seq<char>| conv(t)->Some_0) =~= ts);
}

proof fn lemma_line_content_plain(l: Seq<char>)
    requires
        forall|i: int| 0 <= i < l.len() ==> !is_line_end(#[trigger] l[i]),
    ensures
        line_content(l) == l,
    decreases l.len(),
{
    if l.len() > 0 {
        assert(l[0] == l[0]);
        assert forall|i: int| 0 <= i < l.drop_first().len() implies !is_line_end(
            #[trigger] l.drop_first()[i],
        ) by {
            assert(l.drop_first()[i] == l[i + 1]);
        }
        lemma_line_content_plain(l.drop_first());
        assert(seq![l[0]] + l.drop_first() =~= l);
    }
}

proof fn lemma_line_content_ended(w: Seq<char>, e: Seq<char>)
    requires
        forall|i: int| 0 <= i < w.len() ==> !is_line_end(#[trigger] w[i]),
        e.len() > 0,
        is_line_end(e[0]),
    ensures
        line_content(w + e) == w.push('\n'),
    decreases w.len(),
{
    if w.len() == 0 {
        assert(w + e =~= e);
        assert(w.push('\n') =~= seq!['\n']);
    } else {
        let x = w + e;
        assert(x[0] == w[0]);
        assert(x.drop_first() =~= w.drop_first() + e);
        assert forall|i: int| 0 <= i < w.drop_first().len() implies !is_line_end(
            #[trigger] w.drop_first()[i],
        ) by {
            assert(w.drop_first()[i] == w[i + 1]);
        }
        lemma_line_content_ended(w.drop_first(), e);
        assert(seq![w[0]] + w.drop_first().push('\n') =~= w.push('\n'));
    }
}

/// A token is never split where a line ends without a line end: when the
/// unread input holds only separators, a line `l1` that is one word without
/// a line end, then a line that starts with the word `w` followed by a line
/// end, give the single token `l1 + w`.
pub proof fn lemma_token_spans_lines(u: Seq<char>, l1: Seq<char>, w: Seq<char>, e: Seq<char>)
    requires
        is_gap(u),
        is_word(l1),
        is_word(w),
        e.len() > 0,
        is_line_end(e[0]),
    ensures
        next_token(u + line_content(l1) + line_content(w + e)) == Some((l1 + w, seq!['\n'])),
{
    assert forall|i: int| 0 <= i < l1.len() implies !is_line_end(#[trigger] l1[i]) by {
        assert(!is_separator(l1[i]));
    }
    assert forall|i: int| 0 <= i < w.len() implies !is_line_end(#[trigger] w[i]) by {
        assert(!is_separator(w[i]));
    }
    lemma_line_content_plain(l1);
    lemma_line_content_ended(w, e);
    let t = l1 + w;
    assert forall|i: int| 0 <= i < t.len() implies !is_separator(#[trigger] t[i]) by {
        if i < l1.len() {
            assert(t[i] == l1[i]);
        } else {
            assert(t[i] == w[i - l1.len()]);
        }
    }
    assert(u + l1 + w.push('\n') =~= u + t + seq!['\n']);
    lemma_token_after_gap(u, t, seq!['\n']);
}

/// Reading no values consumes nothing and succeeds, whatever the input.
pub proof fn lemma_read_none<T: Parseable>(s: Seq<char>)
    ensures
        read_many::<T>(s, 0) == Ok::<_, ScanError>((Seq::<<T as DeepView>::V>::empty(), s)),
{
}

/// Nothing is dropped between reads: reading `k` values and then `m` more
/// gives what reading `k + m` values at once gives.
pub proof fn lemma_reads_compose<T: Parseable>(s: Seq<char>, k: nat, m: nat)
    requires
        read_many::<T>(s, k) is Ok,
    ensures
        read_many::<T>(s, k + m) == match read_many::<T>(read_many::<T>(s, k)->Ok_0.1, m) {
            Ok((vs2, rest)) => Ok((read_many::<T>(s, k)->Ok_0.0 + vs2, rest)),
            Err(e) => Err(e),
        },
    decreases m,
{
    let vs1 = read_many::<T>(s, k)->Ok_0.0;
    let s1 = read_many::<T>(s, k)->Ok_0.1;
    if m == 0 {
        assert(vs1 + Seq::<<T as DeepView>::V>::empty() =~= vs1);
    } else {
        lemma_reads_compose::<T>(s, k, (m - 1) as nat);
        assert((k + m - 1) as nat == k + (m - 1) as nat);
        match read_many::<T>(s1, (m - 1) as nat) {
            Ok((vs2, s2)) => {
                match T::spec_read(s2) {
                    Ok((v, s3)) => {
                        assert(vs1 + vs2.push(v) =~= (vs1 + vs2).push(v));
                    },
                    Err(e) => {},
                }
            },
            Err(e) => {},
        }
    }
}

/// Reading a tuple is reading its components one after another: the
/// tuple's value is theirs, and the first failing component's error is the
/// tuple's error.
pub proof fn lemma_tuple_is_sequence<A: Parseable, B: Parseable, C: Parseable>(s: Seq<char>)
    ensures
        <(A, B, C)>::spec_read(s) == match A::spec_read(s) {
            Err(e) => Err(e),
            Ok((a, s1)) => match B::spec_read(s1) {
                Err(e) => Err(e),
                Ok((b, s2)) => match C::spec_read(s2) {
                    Err(e) => Err(e),
                    Ok((c, s3)) => Ok(((a, b, c), s3)),
                },
            },
        },
{
}

} // verus!
