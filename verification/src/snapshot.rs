//! The persisted configuration snapshot. After a fully successful run
//! the full configuration is written, as one canonical JSON object, to a
//! fixed path under the build directory; the next run reads it back as
//! the baseline for diffing. An absent or unreadable snapshot stands for
//! "no prior successful build" and yields the all-empty configuration,
//! which forces a full rebuild.
//!
//! The parser is strict: it accepts exactly the canonical text that
//! [`encode_snapshot`] writes, and anything else counts as unreadable.

use vstd::prelude::*;
use crate::config::{ConfigModel, Configuration, FullConfig, FullModel};
use crate::text::{chars_eq, chars_view, push_chars, str_to_chars};

verus! {

/// How one character is written inside a JSON string: quote and
/// backslash get a backslash escape, everything else stands as itself.
pub open spec fn esc_char(c: char) -> Seq<char> {
    if c == '"' || c == '\\' {
        seq!['\\', c]
    } else {
        seq![c]
    }
}

/// A character sequence as JSON string content.
pub open spec fn spec_escape(s: Seq<char>) -> Seq<char>
    decreases s.len(),
{
    if s.len() == 0 {
        Seq::empty()
    } else {
        esc_char(s[0]) + spec_escape(s.drop_first())
    }
}

proof fn lemma_escape_snoc(s: Seq<char>, c: char)
    ensures
        spec_escape(s.push(c)) == spec_escape(s) + esc_char(c),
    decreases s.len(),
{
    if s.len() == 0 {
        assert(s.push(c)[0] == c);
        assert(s.push(c).drop_first() =~= Seq::<char>::empty());
        assert(spec_escape(s.push(c)) == esc_char(c) + spec_escape(Seq::<char>::empty()));
        assert(spec_escape(Seq::<char>::empty()) == Seq::<char>::empty());
        assert(esc_char(c) + Seq::<char>::empty() =~= Seq::<char>::empty() + esc_char(c));
    } else {
        lemma_escape_snoc(s.drop_first(), c);
        assert(s.push(c).drop_first() =~= s.drop_first().push(c));
        assert(s.push(c)[0] == s[0]);
        assert(esc_char(s[0]) + (spec_escape(s.drop_first()) + esc_char(c)) =~= (esc_char(s[0])
            + spec_escape(s.drop_first())) + esc_char(c));
    }
}

/// Appends the JSON string content of `s` to `out`.
fn push_escaped(out: &mut Vec<char>, s: &Vec<char>)
    ensures
        final(out)@ == old(out)@ + spec_escape(s@),
{
    let n: usize = s.len();
    let mut i: usize = 0;
    while i < n
        invariant
            n == s@.len(),
            i <= n,
            out@ == old(out)@ + spec_escape(s@.take(i as int)),
        decreases n - i,
    {
        let c = s[i];
        if c == '"' || c == '\\' {
            out.push('\\');
            out.push(c);
        } else {
            out.push(c);
        }
        proof {
            lemma_escape_snoc(s@.take(i as int), s@[i as int]);
            assert(s@.take(i as int).push(s@[i as int]) =~= s@.take(i + 1));
            assert(out@ =~= old(out)@ + spec_escape(s@.take(i + 1)));
        }
        i = i + 1;
    }
    assert(s@.take(n as int) =~= s@);
}

/// A character sequence as a quoted JSON string.
pub open spec fn spec_quoted(s: Seq<char>) -> Seq<char> {
    seq!['"'] + spec_escape(s) + seq!['"']
}

/// The dependency list as a JSON array of strings.
pub open spec fn spec_enc_list(items: Seq<Seq<char>>) -> Seq<char>
    decreases items.len(),
{
    if items.len() == 0 {
        Seq::empty()
    } else if items.len() == 1 {
        spec_quoted(items[0])
    } else {
        spec_quoted(items[0]) + seq![','] + spec_enc_list(items.drop_first())
    }
}

proof fn lemma_enc_list_snoc(items: Seq<Seq<char>>, x: Seq<char>)
    ensures
        spec_enc_list(items.push(x)) == if items.len() == 0 {
            spec_quoted(x)
        } else {
            spec_enc_list(items) + seq![','] + spec_quoted(x)
        },
    decreases items.len(),
{
    if items.len() == 0 {
        assert(items.push(x)[0] == x);
    } else if items.len() == 1 {
        assert(items.push(x).drop_first() =~= seq![x]);
        assert(spec_enc_list(seq![x]) == spec_quoted(x));
        assert(items.push(x)[0] == items[0]);
    } else {
        lemma_enc_list_snoc(items.drop_first(), x);
        assert(items.push(x).drop_first() =~= items.drop_first().push(x));
        assert(items.push(x)[0] == items[0]);
        assert(spec_quoted(items[0]) + seq![','] + (spec_enc_list(items.drop_first()) + seq![',']
            + spec_quoted(x)) =~= (spec_quoted(items[0]) + seq![','] + spec_enc_list(
            items.drop_first(),
        )) + seq![','] + spec_quoted(x));
    }
}

/// Appends the JSON array encoding of the dependency list to `out`.
fn push_enc_list(out: &mut Vec<char>, items: &Vec<Vec<char>>)
    ensures
        final(out)@ == old(out)@ + spec_enc_list(chars_view(items@)),
{
    let n: usize = items.len();
    let mut i: usize = 0;
    while i < n
        invariant
            n == items@.len(),
            i <= n,
            out@ == old(out)@ + spec_enc_list(chars_view(items@).take(i as int)),
        decreases n - i,
    {
        if i > 0 {
            out.push(',');
        }
        out.push('"');
        push_escaped(out, &items[i]);
        out.push('"');
        proof {
            let prefix = chars_view(items@).take(i as int);
            lemma_enc_list_snoc(prefix, items@[i as int]@);
            assert(prefix.push(items@[i as int]@) =~= chars_view(items@).take(i + 1));
            assert(seq!['"'] + spec_escape(items@[i as int]@) + seq!['"'] == spec_quoted(
                items@[i as int]@,
            ));
            if i > 0 {
                assert(out@ =~= old(out)@ + (spec_enc_list(prefix) + seq![','] + spec_quoted(
                    items@[i as int]@,
                )));
            } else {
                assert(out@ =~= old(out)@ + spec_quoted(items@[i as int]@));
            }
        }
        i = i + 1;
    }
    assert(chars_view(items@).take(n as int) =~= chars_view(items@));
}

/// The canonical snapshot text for a full configuration: one JSON
/// object with the manifest configuration nested under `unison`,
/// followed by the target triple and the project root.
pub open spec fn spec_encode(m: FullModel) -> Seq<char> {
    "{\"unison\":{\"ucm_version\":\""@ + spec_escape(m.unison.ucm_version)
        + "\",\"project\":\""@ + spec_escape(m.unison.project) + "\",\"branch\":\""@
        + spec_escape(m.unison.branch) + "\",\"entrypoint\":\""@ + spec_escape(m.unison.entrypoint)
        + "\",\"dependencies_cache\":["@ + spec_enc_list(m.unison.dependencies_cache)
        + "]},\"target_triple\":\""@ + spec_escape(m.target_triple) + "\",\"project_root\":\""@
        + spec_escape(m.project_root) + "\"}"@
}

/// Serializes a full configuration as the canonical snapshot text.
pub fn encode_snapshot(c: &FullConfig) -> (v: Vec<char>)
    ensures
        v@ == spec_encode(c@),
{
    let mut out: Vec<char> = Vec::new();
    let lit = str_to_chars("{\"unison\":{\"ucm_version\":\"");
    push_chars(&mut out, &lit);
    push_escaped(&mut out, &c.unison.ucm_version);
    let lit = str_to_chars("\",\"project\":\"");
    push_chars(&mut out, &lit);
    push_escaped(&mut out, &c.unison.project);
    let lit = str_to_chars("\",\"branch\":\"");
    push_chars(&mut out, &lit);
    push_escaped(&mut out, &c.unison.branch);
    let lit = str_to_chars("\",\"entrypoint\":\"");
    push_chars(&mut out, &lit);
    push_escaped(&mut out, &c.unison.entrypoint);
    let lit = str_to_chars("\",\"dependencies_cache\":[");
    push_chars(&mut out, &lit);
    push_enc_list(&mut out, &c.unison.dependencies_cache);
    let lit = str_to_chars("]},\"target_triple\":\"");
    push_chars(&mut out, &lit);
    push_escaped(&mut out, &c.target_triple);
    let lit = str_to_chars("\",\"project_root\":\"");
    push_chars(&mut out, &lit);
    push_escaped(&mut out, &c.project_root);
    let lit = str_to_chars("\"}");
    push_chars(&mut out, &lit);
    out
}

/// Spec-level read of JSON string content: the content up to the
/// closing quote, and the remaining text after it. Only the two escapes
/// the encoder writes are accepted.
pub open spec fn spec_take_string(t: Seq<char>) -> Option<(Seq<char>, Seq<char>)>
    decreases t.len(),
{
    if t.len() == 0 {
        None
    } else if t[0] == '"' {
        Some((Seq::empty(), t.drop_first()))
    } else if t[0] == '\\' {
        if t.len() < 2 {
            None
        } else if t[1] == '"' || t[1] == '\\' {
            match spec_take_string(t.skip(2)) {
                Some(p) => Some((seq![t[1]] + p.0, p.1)),
                None => None,
            }
        } else {
            None
        }
    } else {
        match spec_take_string(t.drop_first()) {
            Some(p) => Some((seq![t[0]] + p.0, p.1)),
            None => None,
        }
    }
}

/// Prefixes already-read content onto the result of reading the rest.
pub open spec fn spec_take_prepend(p: Seq<char>, o: Option<(Seq<char>, Seq<char>)>) -> Option<
    (Seq<char>, Seq<char>),
> {
    match o {
        Some(q) => Some((p + q.0, q.1)),
        None => None,
    }
}

proof fn lemma_take_prepend_assoc(a: Seq<char>, b: Seq<char>, o: Option<(Seq<char>, Seq<char>)>)
    ensures
        spec_take_prepend(a, spec_take_prepend(b, o)) == spec_take_prepend(a + b, o),
{
    match o {
        Some(q) => {
            assert(a + (b + q.0) =~= (a + b) + q.0);
        },
        None => {},
    }
}

/// Reading string content consumes at least the closing quote.
proof fn lemma_take_string_shrinks(t: Seq<char>)
    ensures
        spec_take_string(t) is Some ==> spec_take_string(t).unwrap().1.len() < t.len(),
    decreases t.len(),
{
    if t.len() == 0 {
    } else if t[0] == '"' {
    } else if t[0] == '\\' {
        if t.len() >= 2 && (t[1] == '"' || t[1] == '\\') {
            lemma_take_string_shrinks(t.skip(2));
        }
    } else {
        lemma_take_string_shrinks(t.drop_first());
    }
}

/// Reading escaped content back: the escape of `s`, a closing quote and
/// anything after it reads as exactly `s` with that remainder.
proof fn lemma_take_string_of_escape(s: Seq<char>, rest: Seq<char>)
    ensures
        spec_take_string(spec_escape(s) + seq!['"'] + rest) == Some((s, rest)),
    decreases s.len(),
{
    let t = spec_escape(s) + seq!['"'] + rest;
    if s.len() == 0 {
        assert(spec_escape(s) =~= Seq::<char>::empty());
        assert(t =~= seq!['"'] + rest);
        assert(t[0] == '"');
        assert(t.drop_first() =~= rest);
    } else {
        let c = s[0];
        let s2 = s.drop_first();
        lemma_take_string_of_escape(s2, rest);
        assert(spec_escape(s) == esc_char(c) + spec_escape(s2));
        assert(seq![c] + s2 =~= s);
        if c == '"' || c == '\\' {
            assert(esc_char(c) == seq!['\\', c]);
            assert(t[0] == '\\');
            assert(t[1] == c);
            assert(t.skip(2) =~= spec_escape(s2) + seq!['"'] + rest);
        } else {
            assert(esc_char(c) == seq![c]);
            assert(t[0] == c);
            assert(t.drop_first() =~= spec_escape(s2) + seq!['"'] + rest);
        }
    }
}

/// Spec-level read of a fixed literal: the remaining text after it, or
/// nothing when the text does not start with the literal.
pub open spec fn spec_drop_lit(t: Seq<char>, lit: Seq<char>) -> Option<Seq<char>> {
    if lit.is_prefix_of(t) {
        Some(t.skip(lit.len() as int))
    } else {
        None
    }
}

/// Dropping a literal off a text that starts with it leaves the rest.
proof fn lemma_drop_lit_of_concat(lit: Seq<char>, rest: Seq<char>)
    ensures
        spec_drop_lit(lit + rest, lit) == Some(rest),
{
    assert(lit =~= (lit + rest).subrange(0, lit.len() as int));
    assert((lit + rest).skip(lit.len() as int) =~= rest);
}

/// Reading a literal at position `i` of `t` is reading it off the text
/// remaining at `i`.
proof fn lemma_drop_lit_at(t: Seq<char>, i: int, lit: Seq<char>)
    requires
        0 <= i <= t.len(),
    ensures
        spec_drop_lit(t.skip(i), lit) == (if i + lit.len() <= t.len() && t.subrange(
            i,
            i + lit.len(),
        ) == lit {
            Some(t.skip(i + lit.len()))
        } else {
            None
        }),
{
    let s = t.skip(i);
    if lit.len() <= s.len() {
        assert(s.subrange(0, lit.len() as int) =~= t.subrange(i, i + lit.len()));
    }
    if lit.is_prefix_of(s) {
        assert(s.skip(lit.len() as int) =~= t.skip(i + lit.len()));
    }
}

/// Checks that `lit` stands in `t` at position `i`; on success returns
/// the position just past it.
fn expect_lit(t: &Vec<char>, i: usize, lit: &Vec<char>) -> (r: Option<usize>)
    requires
        i <= t@.len(),
    ensures
        match r {
            Some(j) => j == i + lit@.len() && j <= t@.len() && t@.subrange(i as int, j as int)
                == lit@,
            None => !(i + lit@.len() <= t@.len() && t@.subrange(
                i as int,
                i + lit@.len() as int,
            ) == lit@),
        },
{
    let m: usize = lit.len();
    let n: usize = t.len();
    if n - i < m {
        return None;
    }
    let mut k: usize = 0;
    while k < m
        invariant
            n == t@.len(),
            i + m <= n,
            k <= m,
            m == lit@.len(),
            forall|l: int| 0 <= l < k ==> t@[i + l] == lit@[l],
        decreases m - k,
    {
        if t[i + k] != lit[k] {
            proof {
                assert(t@.subrange(i as int, (i + m) as int)[k as int] != lit@[k as int]);
            }
            return None;
        }
        k = k + 1;
    }
    proof {
        assert(t@.subrange(i as int, (i + m) as int) =~= lit@);
    }
    Some(i + m)
}

/// Reads JSON string content from position `i` up to the closing quote;
/// on success returns the content and the position just past the quote.
/// Only the two escapes the encoder writes are accepted.
fn parse_string(t: &Vec<char>, i: usize) -> (r: Option<(Vec<char>, usize)>)
    requires
        i <= t@.len(),
    ensures
        match r {
            Some(p) => i < p.1 <= t@.len() && spec_take_string(t@.skip(i as int)) == Some(
                (p.0@, t@.skip(p.1 as int)),
            ),
            None => spec_take_string(t@.skip(i as int)) is None,
        },
{
    let n: usize = t.len();
    let mut out: Vec<char> = Vec::new();
    let mut k: usize = i;
    while k < n
        invariant
            i <= k <= n,
            n == t@.len(),
            spec_take_string(t@.skip(i as int)) == spec_take_prepend(
                out@,
                spec_take_string(t@.skip(k as int)),
            ),
        decreases n - k,
    {
        let ghost pre = out@;
        let ghost cur = t@.skip(k as int);
        proof {
            assert(cur.len() == n - k);
            assert(cur[0] == t@[k as int]);
        }
        let c = t[k];
        if c == '"' {
            proof {
                assert(cur.drop_first() =~= t@.skip(k + 1 as int));
                assert(spec_take_string(cur) == Some((Seq::<char>::empty(), t@.skip(k + 1 as int))));
                assert(pre + Seq::<char>::empty() =~= pre);
            }
            return Some((out, k + 1));
        }
        if c == '\\' {
            if k + 1 >= n {
                proof {
                    assert(spec_take_string(cur) is None);
                }
                return None;
            }
            let d = t[k + 1];
            proof {
                assert(cur[1] == t@[k + 1 as int]);
            }
            if d == '"' || d == '\\' {
                out.push(d);
                proof {
                    assert(cur.skip(2) =~= t@.skip(k + 2 as int));
                    assert(spec_take_string(cur) == spec_take_prepend(
                        seq![d],
                        spec_take_string(t@.skip(k + 2 as int)),
                    ));
                    lemma_take_prepend_assoc(pre, seq![d], spec_take_string(t@.skip(k + 2 as int)));
                    assert(pre + seq![d] =~= out@);
                }
                k = k + 2;
            } else {
                proof {
                    assert(spec_take_string(cur) is None);
                }
                return None;
            }
        } else {
            out.push(c);
            proof {
                assert(cur.drop_first() =~= t@.skip(k + 1 as int));
                assert(spec_take_string(cur) == spec_take_prepend(
                    seq![c],
                    spec_take_string(t@.skip(k + 1 as int)),
                ));
                lemma_take_prepend_assoc(pre, seq![c], spec_take_string(t@.skip(k + 1 as int)));
                assert(pre + seq![c] =~= out@);
            }
            k = k + 1;
        }
    }
    proof {
        assert(t@.skip(k as int).len() == 0);
        assert(spec_take_string(t@.skip(k as int)) is None);
    }
    None
}

/// Spec-level read of one or more array items: a quoted string, then
/// either a comma and further items or the closing bracket.
pub open spec fn spec_take_items(t: Seq<char>) -> Option<(Seq<Seq<char>>, Seq<char>)>
    decreases t.len(),
    via spec_take_items_dec
{
    if t.len() == 0 {
        None
    } else if t[0] != '"' {
        None
    } else {
        match spec_take_string(t.drop_first()) {
            None => None,
            Some((s, r)) => {
                if r.len() == 0 {
                    None
                } else if r[0] == ',' {
                    match spec_take_items(r.drop_first()) {
                        None => None,
                        Some((items, r2)) => Some((seq![s] + items, r2)),
                    }
                } else if r[0] == ']' {
                    Some((seq![s], r.drop_first()))
                } else {
                    None
                }
            },
        }
    }
}

#[via_fn]
proof fn spec_take_items_dec(t: Seq<char>) {
    if t.len() > 0 && t[0] == '"' {
        lemma_take_string_shrinks(t.drop_first());
    }
}

/// Spec-level read of a JSON array of strings, from just past the
/// opening bracket through the closing bracket: the items and the
/// remaining text.
pub open spec fn spec_take_list(t: Seq<char>) -> Option<(Seq<Seq<char>>, Seq<char>)> {
    if t.len() == 0 {
        None
    } else if t[0] == ']' {
        Some((Seq::empty(), t.drop_first()))
    } else {
        spec_take_items(t)
    }
}

/// Prefixes already-read items onto the result of reading the rest.
pub open spec fn spec_items_prepend(
    p: Seq<Seq<char>>,
    o: Option<(Seq<Seq<char>>, Seq<char>)>,
) -> Option<(Seq<Seq<char>>, Seq<char>)> {
    match o {
        Some(q) => Some((p + q.0, q.1)),
        None => None,
    }
}

proof fn lemma_items_prepend_assoc(
    a: Seq<Seq<char>>,
    b: Seq<Seq<char>>,
    o: Option<(Seq<Seq<char>>, Seq<char>)>,
)
    ensures
        spec_items_prepend(a, spec_items_prepend(b, o)) == spec_items_prepend(a + b, o),
{
    match o {
        Some(q) => {
            assert(a + (b + q.0) =~= (a + b) + q.0);
        },
        None => {},
    }
}

/// Reading the encoding of a nonempty list back, followed by the
/// closing bracket, yields exactly that list.
proof fn lemma_take_items_of_enc(items: Seq<Seq<char>>, rest: Seq<char>)
    requires
        items.len() > 0,
    ensures
        spec_take_items(spec_enc_list(items) + seq![']'] + rest) == Some((items, rest)),
    decreases items.len(),
{
    let t = spec_enc_list(items) + seq![']'] + rest;
    let x = items[0];
    if items.len() == 1 {
        assert(spec_enc_list(items) == spec_quoted(x));
        assert(t[0] == '"');
        let after = seq![']'] + rest;
        assert(t.drop_first() =~= spec_escape(x) + seq!['"'] + after);
        lemma_take_string_of_escape(x, after);
        assert(after[0] == ']');
        assert(after.drop_first() =~= rest);
        assert(seq![x] =~= items);
    } else {
        assert(spec_enc_list(items) == spec_quoted(x) + seq![','] + spec_enc_list(
            items.drop_first(),
        ));
        assert(t[0] == '"');
        let after = seq![','] + (spec_enc_list(items.drop_first()) + seq![']'] + rest);
        assert(t.drop_first() =~= spec_escape(x) + seq!['"'] + after);
        lemma_take_string_of_escape(x, after);
        assert(after[0] == ',');
        assert(after.drop_first() =~= spec_enc_list(items.drop_first()) + seq![']'] + rest);
        lemma_take_items_of_enc(items.drop_first(), rest);
        assert(seq![x] + items.drop_first() =~= items);
    }
}

/// Reading any list encoding back, followed by the closing bracket,
/// yields exactly that list.
proof fn lemma_take_list_of_enc(items: Seq<Seq<char>>, rest: Seq<char>)
    ensures
        spec_take_list(spec_enc_list(items) + seq![']'] + rest) == Some((items, rest)),
{
    let t = spec_enc_list(items) + seq![']'] + rest;
    if items.len() == 0 {
        assert(spec_enc_list(items) =~= Seq::<char>::empty());
        assert(t =~= seq![']'] + rest);
        assert(t[0] == ']');
        assert(t.drop_first() =~= rest);
        assert(items =~= Seq::<Seq<char>>::empty());
    } else {
        lemma_take_items_of_enc(items, rest);
        assert(spec_enc_list(items)[0] == '"') by {
            if items.len() == 1 {
                assert(spec_enc_list(items) == spec_quoted(items[0]));
            }
        }
        assert(t[0] == '"');
    }
}

/// Reads a JSON array of strings from position `i` (just past the
/// opening bracket) through the closing bracket.
fn parse_list(t: &Vec<char>, i: usize) -> (r: Option<(Vec<Vec<char>>, usize)>)
    requires
        i <= t@.len(),
    ensures
        match r {
            Some(p) => i <= p.1 <= t@.len() && spec_take_list(t@.skip(i as int)) == Some(
                (chars_view(p.0@), t@.skip(p.1 as int)),
            ),
            None => spec_take_list(t@.skip(i as int)) is None,
        },
{
    let n: usize = t.len();
    let mut items: Vec<Vec<char>> = Vec::new();
    if i >= n {
        proof {
            assert(t@.skip(i as int).len() == 0);
        }
        return None;
    }
    proof {
        assert(t@.skip(i as int)[0] == t@[i as int]);
    }
    if t[i] == ']' {
        proof {
            assert(t@.skip(i as int).drop_first() =~= t@.skip(i + 1 as int));
            assert(chars_view(items@) =~= Seq::<Seq<char>>::empty());
        }
        return Some((items, i + 1));
    }
    proof {
        assert(spec_take_list(t@.skip(i as int)) == spec_take_items(t@.skip(i as int)));
        match spec_take_items(t@.skip(i as int)) {
            Some(q) => {
                assert(chars_view(items@) + q.0 =~= q.0);
            },
            None => {},
        }
    }
    let mut k: usize = i;
    while k < n
        invariant
            i <= k <= n,
            n == t@.len(),
            spec_take_list(t@.skip(i as int)) == spec_take_items(t@.skip(i as int)),
            spec_take_items(t@.skip(i as int)) == spec_items_prepend(
                chars_view(items@),
                spec_take_items(t@.skip(k as int)),
            ),
        decreases n - k,
    {
        let ghost cur = t@.skip(k as int);
        proof {
            assert(cur.len() == n - k);
            assert(cur[0] == t@[k as int]);
        }
        if t[k] != '"' {
            proof {
                assert(spec_take_items(cur) is None);
            }
            return None;
        }
        match parse_string(t, k + 1) {
            Option::None => {
                proof {
                    assert(cur.drop_first() =~= t@.skip(k + 1 as int));
                    assert(spec_take_items(cur) is None);
                }
                return None;
            },
            Option::Some((s, j)) => {
                proof {
                    assert(cur.drop_first() =~= t@.skip(k + 1 as int));
                }
                let ghost rr = t@.skip(j as int);
                let ghost pre_items = items@;
                items.push(s);
                proof {
                    crate::text::lemma_chars_view_push(pre_items, s);
                    assert(chars_view(pre_items) + seq![s@] =~= chars_view(items@));
                }
                if j >= n {
                    proof {
                        assert(rr.len() == 0);
                        assert(spec_take_items(cur) is None);
                    }
                    return None;
                }
                proof {
                    assert(rr[0] == t@[j as int]);
                }
                if t[j] == ',' {
                    proof {
                        assert(rr.drop_first() =~= t@.skip(j + 1 as int));
                        assert(spec_take_items(cur) == spec_items_prepend(
                            seq![s@],
                            spec_take_items(t@.skip(j + 1 as int)),
                        ));
                        lemma_items_prepend_assoc(
                            chars_view(pre_items),
                            seq![s@],
                            spec_take_items(t@.skip(j + 1 as int)),
                        );
                    }
                    k = j + 1;
                } else if t[j] == ']' {
                    proof {
                        assert(rr.drop_first() =~= t@.skip(j + 1 as int));
                        assert(spec_take_items(cur) == Some((seq![s@], t@.skip(j + 1 as int))));
                    }
                    return Some((items, j + 1));
                } else {
                    proof {
                        assert(spec_take_items(cur) is None);
                    }
                    return None;
                }
            },
        }
    }
    proof {
        assert(t@.skip(k as int).len() == 0);
        assert(spec_take_items(t@.skip(k as int)) is None);
    }
    None
}

/// Spec-level read of the whole canonical snapshot layout: every
/// literal, string and list in order, with nothing left over.
pub open spec fn spec_parse(t: Seq<char>) -> Option<FullModel> {
    match spec_drop_lit(t, "{\"unison\":{\"ucm_version\":\""@) {
        None => None,
        Some(t1) => match spec_take_string(t1) {
            None => None,
            Some((ucm_version, t2)) => match spec_drop_lit(t2, ",\"project\":\""@) {
                None => None,
                Some(t3) => match spec_take_string(t3) {
                    None => None,
                    Some((project, t4)) => match spec_drop_lit(t4, ",\"branch\":\""@) {
                        None => None,
                        Some(t5) => match spec_take_string(t5) {
                            None => None,
                            Some((branch, t6)) => match spec_drop_lit(t6, ",\"entrypoint\":\""@) {
                                None => None,
                                Some(t7) => match spec_take_string(t7) {
                                    None => None,
                                    Some((entrypoint, t8)) => match spec_drop_lit(
                                        t8,
                                        ",\"dependencies_cache\":["@,
                                    ) {
                                        None => None,
                                        Some(t9) => match spec_take_list(t9) {
                                            None => None,
                                            Some((deps, t10)) => match spec_drop_lit(
                                                t10,
                                                "},\"target_triple\":\""@,
                                            ) {
                                                None => None,
                                                Some(t11) => match spec_take_string(t11) {
                                                    None => None,
                                                    Some((target_triple, t12)) => match spec_drop_lit(
                                                        t12,
                                                        ",\"project_root\":\""@,
                                                    ) {
                                                        None => None,
                                                        Some(t13) => match spec_take_string(t13) {
                                                            None => None,
                                                            Some((project_root, t14)) => match spec_drop_lit(
                                                                t14,
                                                                "}"@,
                                                            ) {
                                                                None => None,
                                                                Some(t15) => if t15.len() == 0 {
                                                                    Some(
                                                                        FullModel {
                                                                            unison: ConfigModel {
                                                                                ucm_version,
                                                                                project,
                                                                                branch,
                                                                                entrypoint,
                                                                                dependencies_cache:
                                                                                    deps,
                                                                            },
                                                                            target_triple,
                                                                            project_root,
                                                                        },
                                                                    )
                                                                } else {
                                                                    None
                                                                },
                                                            },
                                                        },
                                                    },
                                                },
                                            },
                                        },
                                    },
                                },
                            },
                        },
                    },
                },
            },
        },
    }
}

/// Reads the canonical snapshot layout; the caller still validates the
/// result against the encoder.
fn parse_snapshot_inner(t: &Vec<char>) -> (r: Option<FullConfig>)
    ensures
        match r {
            Some(c) => spec_parse(t@) == Some(c@),
            None => spec_parse(t@) is None,
        },
{
    proof {
        assert(t@.skip(0) =~= t@);
    }
    let lit = str_to_chars("{\"unison\":{\"ucm_version\":\"");
    proof {
        lemma_drop_lit_at(t@, 0, lit@);
    }
    let i = match expect_lit(t, 0, &lit) {
        Option::Some(j) => j,
        Option::None => {
            return None;
        },
    };
    let (ucm_version, i) = match parse_string(t, i) {
        Option::Some(p) => p,
        Option::None => {
            return None;
        },
    };
    let lit = str_to_chars(",\"project\":\"");
    proof {
        lemma_drop_lit_at(t@, i as int, lit@);
    }
    let i = match expect_lit(t, i, &lit) {
        Option::Some(j) => j,
        Option::None => {
            return None;
        },
    };
    let (project, i) = match parse_string(t, i) {
        Option::Some(p) => p,
        Option::None => {
            return None;
        },
    };
    let lit = str_to_chars(",\"branch\":\"");
    proof {
        lemma_drop_lit_at(t@, i as int, lit@);
    }
    let i = match expect_lit(t, i, &lit) {
        Option::Some(j) => j,
        Option::None => {
            return None;
        },
    };
    let (branch, i) = match parse_string(t, i) {
        Option::Some(p) => p,
        Option::None => {
            return None;
        },
    };
    let lit = str_to_chars(",\"entrypoint\":\"");
    proof {
        lemma_drop_lit_at(t@, i as int, lit@);
    }
    let i = match expect_lit(t, i, &lit) {
        Option::Some(j) => j,
        Option::None => {
            return None;
        },
    };
    let (entrypoint, i) = match parse_string(t, i) {
        Option::Some(p) => p,
        Option::None => {
            return None;
        },
    };
    let lit = str_to_chars(",\"dependencies_cache\":[");
    proof {
        lemma_drop_lit_at(t@, i as int, lit@);
    }
    let i = match expect_lit(t, i, &lit) {
        Option::Some(j) => j,
        Option::None => {
            return None;
        },
    };
    let (dependencies_cache, i) = match parse_list(t, i) {
        Option::Some(p) => p,
        Option::None => {
            return None;
        },
    };
    let lit = str_to_chars("},\"target_triple\":\"");
    proof {
        lemma_drop_lit_at(t@, i as int, lit@);
    }
    let i = match expect_lit(t, i, &lit) {
        Option::Some(j) => j,
        Option::None => {
            return None;
        },
    };
    let (target_triple, i) = match parse_string(t, i) {
        Option::Some(p) => p,
        Option::None => {
            return None;
        },
    };
    let lit = str_to_chars(",\"project_root\":\"");
    proof {
        lemma_drop_lit_at(t@, i as int, lit@);
    }
    let i = match expect_lit(t, i, &lit) {
        Option::Some(j) => j,
        Option::None => {
            return None;
        },
    };
    let (project_root, i) = match parse_string(t, i) {
        Option::Some(p) => p,
        Option::None => {
            return None;
        },
    };
    let lit = str_to_chars("}");
    proof {
        lemma_drop_lit_at(t@, i as int, lit@);
    }
    let i = match expect_lit(t, i, &lit) {
        Option::Some(j) => j,
        Option::None => {
            return None;
        },
    };
    if i != t.len() {
        proof {
            assert(t@.skip(i as int).len() != 0);
        }
        return None;
    }
    proof {
        assert(t@.skip(i as int).len() == 0);
    }
    let c = FullConfig {
        unison: Configuration { ucm_version, project, branch, entrypoint, dependencies_cache },
        target_triple,
        project_root,
    };
    proof {
        assert(spec_parse(t@) == Some(c@));
    }
    Some(c)
}

/// Round trip: the canonical encoding of any configuration reads back
/// as exactly that configuration.
#[verifier::rlimit(50)]
pub proof fn lemma_parse_of_encode(m: FullModel)
    ensures
        spec_parse(spec_encode(m)) == Some(m),
{
    reveal_strlit("{\"unison\":{\"ucm_version\":\"");
    reveal_strlit("\",\"project\":\"");
    reveal_strlit(",\"project\":\"");
    reveal_strlit("\",\"branch\":\"");
    reveal_strlit(",\"branch\":\"");
    reveal_strlit("\",\"entrypoint\":\"");
    reveal_strlit(",\"entrypoint\":\"");
    reveal_strlit("\",\"dependencies_cache\":[");
    reveal_strlit(",\"dependencies_cache\":[");
    reveal_strlit("]},\"target_triple\":\"");
    reveal_strlit("},\"target_triple\":\"");
    reveal_strlit("\",\"project_root\":\"");
    reveal_strlit(",\"project_root\":\"");
    reveal_strlit("\"}");
    reveal_strlit("}");
    assert("\",\"project\":\""@ =~= seq!['"'] + ",\"project\":\""@);
    assert("\",\"branch\":\""@ =~= seq!['"'] + ",\"branch\":\""@);
    assert("\",\"entrypoint\":\""@ =~= seq!['"'] + ",\"entrypoint\":\""@);
    assert("\",\"dependencies_cache\":["@ =~= seq!['"'] + ",\"dependencies_cache\":["@);
    assert("]},\"target_triple\":\""@ =~= seq![']'] + "},\"target_triple\":\""@);
    assert("\",\"project_root\":\""@ =~= seq!['"'] + ",\"project_root\":\""@);
    assert("\"}"@ =~= seq!['"'] + "}"@);

    let u = m.unison.ucm_version;
    let pj = m.unison.project;
    let br = m.unison.branch;
    let ep = m.unison.entrypoint;
    let dc = m.unison.dependencies_cache;
    let tt = m.target_triple;
    let pr = m.project_root;

    let t15 = Seq::<char>::empty();
    let t14 = "}"@ + t15;
    let t13 = spec_escape(pr) + seq!['"'] + t14;
    let t12 = ",\"project_root\":\""@ + t13;
    let t11 = spec_escape(tt) + seq!['"'] + t12;
    let t10 = "},\"target_triple\":\""@ + t11;
    let t9 = spec_enc_list(dc) + seq![']'] + t10;
    let t8 = ",\"dependencies_cache\":["@ + t9;
    let t7 = spec_escape(ep) + seq!['"'] + t8;
    let t6 = ",\"entrypoint\":\""@ + t7;
    let t5 = spec_escape(br) + seq!['"'] + t6;
    let t4 = ",\"branch\":\""@ + t5;
    let t3 = spec_escape(pj) + seq!['"'] + t4;
    let t2 = ",\"project\":\""@ + t3;
    let t1 = spec_escape(u) + seq!['"'] + t2;

    assert(spec_encode(m) =~= "{\"unison\":{\"ucm_version\":\""@ + t1);

    lemma_drop_lit_of_concat("{\"unison\":{\"ucm_version\":\""@, t1);
    lemma_take_string_of_escape(u, t2);
    lemma_drop_lit_of_concat(",\"project\":\""@, t3);
    lemma_take_string_of_escape(pj, t4);
    lemma_drop_lit_of_concat(",\"branch\":\""@, t5);
    lemma_take_string_of_escape(br, t6);
    lemma_drop_lit_of_concat(",\"entrypoint\":\""@, t7);
    lemma_take_string_of_escape(ep, t8);
    lemma_drop_lit_of_concat(",\"dependencies_cache\":["@, t9);
    lemma_take_list_of_enc(dc, t10);
    lemma_drop_lit_of_concat("},\"target_triple\":\""@, t11);
    lemma_take_string_of_escape(tt, t12);
    lemma_drop_lit_of_concat(",\"project_root\":\""@, t13);
    lemma_take_string_of_escape(pr, t14);
    lemma_drop_lit_of_concat("}"@, t15);

    assert(spec_parse(spec_encode(m)) == Some(
        FullModel {
            unison: ConfigModel {
                ucm_version: u,
                project: pj,
                branch: br,
                entrypoint: ep,
                dependencies_cache: dc,
            },
            target_triple: tt,
            project_root: pr,
        },
    ));
    assert(FullModel {
        unison: ConfigModel {
            ucm_version: u,
            project: pj,
            branch: br,
            entrypoint: ep,
            dependencies_cache: dc,
        },
        target_triple: tt,
        project_root: pr,
    } =~~= m);
}

/// No two configurations share an encoding.
pub proof fn lemma_encode_injective(a: FullModel, b: FullModel)
    requires
        spec_encode(a) == spec_encode(b),
    ensures
        a == b,
{
    lemma_parse_of_encode(a);
    lemma_parse_of_encode(b);
}

/// Reads a snapshot. The result is exact in both directions: a returned
/// configuration is the one whose canonical encoding the text is,
/// character for character, and the text is rejected exactly when it is
/// no configuration's encoding.
pub fn parse_snapshot(t: &Vec<char>) -> (r: Option<FullConfig>)
    ensures
        match r {
            Some(c) => t@ == spec_encode(c@),
            None => forall|m: FullModel| t@ != spec_encode(m),
        },
{
    match parse_snapshot_inner(t) {
        Option::Some(c) => {
            let enc = encode_snapshot(&c);
            if chars_eq(&enc, t) {
                Some(c)
            } else {
                proof {
                    assert forall|m: FullModel| t@ != spec_encode(m) by {
                        if t@ == spec_encode(m) {
                            lemma_parse_of_encode(m);
                        }
                    }
                }
                None
            }
        },
        Option::None => {
            proof {
                assert forall|m: FullModel| t@ != spec_encode(m) by {
                    if t@ == spec_encode(m) {
                        lemma_parse_of_encode(m);
                    }
                }
            }
            None
        },
    }
}

/// The baseline configuration for this run: the configuration whose
/// canonical encoding the snapshot text is, or the all-empty default
/// when the snapshot is absent (`None`) or no configuration's encoding.
pub fn prior_config(snapshot: &Option<Vec<char>>) -> (c: FullConfig)
    ensures
        match snapshot {
            None => c@ == FullModel::empty(),
            Some(s) => if exists|m: FullModel| s@ == spec_encode(m) {
                s@ == spec_encode(c@)
            } else {
                c@ == FullModel::empty()
            },
        },
{
    match snapshot {
        Option::Some(s) => match parse_snapshot(s) {
            Option::Some(c) => c,
            Option::None => FullConfig::empty(),
        },
        Option::None => FullConfig::empty(),
    }
}

} // verus!
