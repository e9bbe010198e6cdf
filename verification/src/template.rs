//! Template-driven script generation. A stage script template is plain
//! text with named placeholders, each written `{name}` where `name` is
//! one of the configuration fields; rendering substitutes the field
//! values (the dependency list as one identifier per line) and reports
//! whether the result differs from the previously written script.

use vstd::prelude::*;
use crate::config::{ConfigModel, Configuration};
use crate::errors::BuildError;
use crate::text::{chars_eq, chars_view, copy_chars, push_chars, str_to_chars};

verus! {

/// The meaning of a template under a configuration: its rendered text,
/// or the error that rendering must report.
pub enum SpecRender {
    /// Every placeholder names a field; this is the substituted text.
    Rendered(Seq<char>),
    /// Some placeholder names no configuration field.
    MissingField,
    /// Some `{` is never closed by a `}`.
    Unclosed,
}

/// The dependency list as template text: one identifier per line.
pub open spec fn join_lines(items: Seq<Seq<char>>) -> Seq<char>
    decreases items.len(),
{
    if items.len() == 0 {
        Seq::empty()
    } else if items.len() == 1 {
        items[0]
    } else {
        items[0] + seq!['\n'] + join_lines(items.drop_first())
    }
}

proof fn lemma_join_lines_snoc(items: Seq<Seq<char>>, x: Seq<char>)
    ensures
        join_lines(items.push(x)) == if items.len() == 0 {
            x
        } else {
            join_lines(items) + seq!['\n'] + x
        },
    decreases items.len(),
{
    if items.len() == 0 {
        assert(items.push(x)[0] == x);
    } else if items.len() == 1 {
        assert(items.push(x).drop_first() =~= seq![x]);
        assert(join_lines(seq![x]) == x);
        assert(items.push(x)[0] == items[0]);
    } else {
        lemma_join_lines_snoc(items.drop_first(), x);
        assert(items.push(x).drop_first() =~= items.drop_first().push(x));
        assert(items.push(x)[0] == items[0]);
        assert(items[0] + seq!['\n'] + (join_lines(items.drop_first()) + seq!['\n'] + x) =~= (
        items[0] + seq!['\n'] + join_lines(items.drop_first())) + seq!['\n'] + x);
    }
}

/// Renders the dependency list: the identifiers joined by newlines.
pub fn join_deps(items: &Vec<Vec<char>>) -> (v: Vec<char>)
    ensures
        v@ == join_lines(chars_view(items@)),
{
    let n: usize = items.len();
    let mut out: Vec<char> = Vec::new();
    let mut i: usize = 0;
    while i < n
        invariant
            n == items@.len(),
            i <= n,
            out@ == join_lines(chars_view(items@).take(i as int)),
        decreases n - i,
    {
        if i > 0 {
            out.push('\n');
        }
        push_chars(&mut out, &items[i]);
        proof {
            let prefix = chars_view(items@).take(i as int);
            lemma_join_lines_snoc(prefix, items@[i as int]@);
            assert(prefix.push(items@[i as int]@) =~= chars_view(items@).take(i + 1));
            if i > 0 {
                assert(out@ =~= join_lines(prefix) + seq!['\n'] + items@[i as int]@);
            }
        }
        i = i + 1;
    }
    assert(chars_view(items@).take(n as int) =~= chars_view(items@));
    out
}

/// The value substituted for the placeholder `name`, if `name` is a
/// configuration field.
pub open spec fn spec_field_for_key(cfg: ConfigModel, name: Seq<char>) -> Option<Seq<char>> {
    if name == "ucm_version"@ {
        Some(cfg.ucm_version)
    } else if name == "project"@ {
        Some(cfg.project)
    } else if name == "branch"@ {
        Some(cfg.branch)
    } else if name == "entrypoint"@ {
        Some(cfg.entrypoint)
    } else if name == "dependencies_cache"@ {
        Some(join_lines(cfg.dependencies_cache))
    } else {
        None
    }
}

/// Looks up the substitution value for one placeholder name.
pub fn field_for_key(cfg: &Configuration, name: &Vec<char>) -> (r: Option<Vec<char>>)
    ensures
        match r {
            Some(v) => spec_field_for_key(cfg@, name@) == Some(v@),
            None => spec_field_for_key(cfg@, name@) is None,
        },
{
    proof {
        reveal_strlit("ucm_version");
        reveal_strlit("project");
        reveal_strlit("branch");
        reveal_strlit("entrypoint");
        reveal_strlit("dependencies_cache");
    }
    let k = str_to_chars("ucm_version");
    if chars_eq(name, &k) {
        return Some(copy_chars(&cfg.ucm_version));
    }
    let k = str_to_chars("project");
    if chars_eq(name, &k) {
        return Some(copy_chars(&cfg.project));
    }
    let k = str_to_chars("branch");
    if chars_eq(name, &k) {
        return Some(copy_chars(&cfg.branch));
    }
    let k = str_to_chars("entrypoint");
    if chars_eq(name, &k) {
        return Some(copy_chars(&cfg.entrypoint));
    }
    let k = str_to_chars("dependencies_cache");
    if chars_eq(name, &k) {
        return Some(join_deps(&cfg.dependencies_cache));
    }
    None
}

/// The index of the first `}` at or after `from`, or the length of `t`
/// if there is none.
pub open spec fn spec_scan_close(t: Seq<char>, from: nat) -> nat
    decreases t.len() - from,
{
    if from >= t.len() {
        t.len()
    } else if t[from as int] == '}' {
        from
    } else {
        spec_scan_close(t, from + 1)
    }
}

proof fn lemma_scan_close(t: Seq<char>, from: nat)
    requires
        from <= t.len(),
    ensures
        from <= spec_scan_close(t, from) <= t.len(),
        spec_scan_close(t, from) < t.len() ==> t[spec_scan_close(t, from) as int] == '}',
    decreases t.len() - from,
{
    if from >= t.len() {
    } else if t[from as int] == '}' {
    } else {
        lemma_scan_close(t, from + 1);
    }
}

/// Finds the first `}` at or after `from`, or the length of `t`.
fn scan_close(t: &Vec<char>, from: usize) -> (j: usize)
    requires
        from <= t@.len(),
    ensures
        j == spec_scan_close(t@, from as nat),
{
    let n: usize = t.len();
    let mut i: usize = from;
    while i < n
        invariant
            from <= i <= n,
            n == t@.len(),
            spec_scan_close(t@, from as nat) == spec_scan_close(t@, i as nat),
        decreases n - i,
    {
        if t[i] == '}' {
            assert(spec_scan_close(t@, i as nat) == i);
            return i;
        }
        assert(spec_scan_close(t@, i as nat) == spec_scan_close(t@, (i + 1) as nat));
        i = i + 1;
    }
    assert(spec_scan_close(t@, i as nat) == t@.len());
    i
}

/// The meaning of the template `t` from position `i` on: substitute
/// every `{name}` placeholder, or report the first error.
pub open spec fn spec_render_from(t: Seq<char>, cfg: ConfigModel, i: nat) -> SpecRender
    decreases t.len() - i,
    via spec_render_from_dec
{
    if i >= t.len() {
        SpecRender::Rendered(Seq::empty())
    } else if t[i as int] == '{' {
        let j = spec_scan_close(t, i + 1);
        if j >= t.len() {
            SpecRender::Unclosed
        } else {
            match spec_field_for_key(cfg, t.subrange((i + 1) as int, j as int)) {
                Option::None => SpecRender::MissingField,
                Option::Some(v) => spec_prepend(v, spec_render_from(t, cfg, j + 1)),
            }
        }
    } else {
        spec_prepend(seq![t[i as int]], spec_render_from(t, cfg, i + 1))
    }
}

#[via_fn]
proof fn spec_render_from_dec(t: Seq<char>, cfg: ConfigModel, i: nat) {
    if i < t.len() && t[i as int] == '{' {
        lemma_scan_close(t, i + 1);
    }
}

/// Prefixes rendered text; errors pass through unchanged.
pub open spec fn spec_prepend(p: Seq<char>, r: SpecRender) -> SpecRender {
    match r {
        SpecRender::Rendered(s) => SpecRender::Rendered(p + s),
        e => e,
    }
}

proof fn lemma_prepend_assoc(a: Seq<char>, b: Seq<char>, r: SpecRender)
    ensures
        spec_prepend(a, spec_prepend(b, r)) == spec_prepend(a + b, r),
{
    match r {
        SpecRender::Rendered(s) => {
            assert(a + (b + s) =~= (a + b) + s);
        },
        _ => {},
    }
}

/// The meaning of the whole template `t` under `cfg`.
pub open spec fn spec_render(t: Seq<char>, cfg: ConfigModel) -> SpecRender {
    spec_render_from(t, cfg, 0)
}

/// Substitutes the configuration into a template held as characters.
pub fn render_chars(template: &Vec<char>, config: &Configuration) -> (r: Result<
    Vec<char>,
    BuildError,
>)
    ensures
        match r {
            Ok(v) => spec_render(template@, config@) == SpecRender::Rendered(v@),
            Err(e) => (e == BuildError::TemplateSyntaxError && spec_render(template@, config@)
                == SpecRender::Unclosed) || (e == BuildError::MissingField && spec_render(
                template@,
                config@,
            ) == SpecRender::MissingField),
        },
{
    let n: usize = template.len();
    let mut out: Vec<char> = Vec::new();
    let mut i: usize = 0;
    while i < n
        invariant
            i <= n,
            n == template@.len(),
            spec_render(template@, config@) == spec_prepend(
                out@,
                spec_render_from(template@, config@, i as nat),
            ),
        decreases n - i,
    {
        let ghost pre = out@;
        let c = template[i];
        if c == '{' {
            let j = scan_close(template, i + 1);
            proof {
                lemma_scan_close(template@, (i + 1) as nat);
            }
            if j >= n {
                assert(spec_render_from(template@, config@, i as nat) == SpecRender::Unclosed);
                return Err(BuildError::TemplateSyntaxError);
            }
            let mut name: Vec<char> = Vec::new();
            let mut k: usize = i + 1;
            while k < j
                invariant
                    i + 1 <= k <= j,
                    j < n,
                    n == template@.len(),
                    name@ == template@.subrange(i + 1, k as int),
                decreases j - k,
            {
                name.push(template[k]);
                assert(name@ =~= template@.subrange(i + 1, k + 1 as int));
                k = k + 1;
            }
            match field_for_key(config, &name) {
                Option::None => {
                    assert(spec_render_from(template@, config@, i as nat)
                        == SpecRender::MissingField);
                    return Err(BuildError::MissingField);
                },
                Option::Some(v) => {
                    push_chars(&mut out, &v);
                    proof {
                        assert(spec_render_from(template@, config@, i as nat) == spec_prepend(
                            v@,
                            spec_render_from(template@, config@, (j + 1) as nat),
                        ));
                        lemma_prepend_assoc(
                            pre,
                            v@,
                            spec_render_from(template@, config@, (j + 1) as nat),
                        );
                    }
                    i = j + 1;
                },
            }
        } else {
            out.push(c);
            proof {
                assert(spec_render_from(template@, config@, i as nat) == spec_prepend(
                    seq![template@[i as int]],
                    spec_render_from(template@, config@, (i + 1) as nat),
                ));
                lemma_prepend_assoc(
                    pre,
                    seq![template@[i as int]],
                    spec_render_from(template@, config@, (i + 1) as nat),
                );
                assert(pre + seq![template@[i as int]] =~= out@);
            }
            i = i + 1;
        }
    }
    assert(spec_render_from(template@, config@, i as nat) == SpecRender::Rendered(
        Seq::<char>::empty(),
    ));
    assert(out@ + Seq::<char>::empty() =~= out@);
    Ok(out)
}

/// The content that the previous render left behind: the previous file
/// text, or empty when there was none.
pub open spec fn spec_previous(previous: Option<Vec<char>>) -> Seq<char> {
    match previous {
        Some(s) => s@,
        None => Seq::empty(),
    }
}

/// Renders one stage script from its template and the configuration,
/// and reports whether the text differs from the previously written
/// script (`previous`, `None` when none could be read). The caller
/// overwrites the script file with the returned text in either case.
pub fn render(template: &Vec<char>, config: &Configuration, previous: &Option<Vec<char>>) -> (r: Result<
    (Vec<char>, bool),
    BuildError,
>)
    ensures
        match r {
            Ok(p) => spec_render(template@, config@) == SpecRender::Rendered(p.0@) && p.1 == (p.0@
                != spec_previous(*previous)),
            Err(e) => (e == BuildError::TemplateSyntaxError && spec_render(template@, config@)
                == SpecRender::Unclosed) || (e == BuildError::MissingField && spec_render(
                template@,
                config@,
            ) == SpecRender::MissingField),
        },
{
    match render_chars(template, config) {
        Ok(content) => {
            let changed: bool = match previous {
                Option::Some(s) => { !chars_eq(&content, s) },
                Option::None => {
                    if content.len() > 0 {
                        true
                    } else {
                        assert(content@ =~= Seq::<char>::empty());
                        false
                    }
                },
            };
            Ok((content, changed))
        },
        Err(e) => Err(e),
    }
}

} // verus!
