//! A model of the display formatting the emitted `Display` implementation
//! performs at its users' run time: the template is copied verbatim except
//! that a `{kind...}` placeholder becomes the kind's formatted text and a
//! `{source...}` placeholder the source's formatted text, whatever format
//! specifier follows the placeholder's name. Any other placeholder is the
//! template author's responsibility and is left untouched, as is an
//! unclosed brace. The template is taken as the source text of the emitted
//! literal: escape sequences are not interpreted here, the host's own
//! formatting machinery sees them. The built-in template used when no
//! `display` is configured is `"error kind: {kind:?}, source: {source:?}"`.

use vstd::prelude::*;
use crate::parser::{lemma_scan_until_bounds, lemma_scan_until_exact, scan_until_spec};
use crate::text::{push_char, range_is, range_to_string, to_chars};

verus! {

/// The built-in display template.
pub open spec fn default_template() -> Seq<char> {
    "error kind: {kind:?}, source: {source:?}"@
}

/// The rendering of the template's tail from index `i` on, with `kind` and
/// `source` the formatted texts of the two stored fields.
pub open spec fn render_from(t: Seq<char>, i: int, kind: Seq<char>, source: Seq<char>) -> Seq<char>
    decreases t.len() - i,
    via render_from_dec
{
    if i >= t.len() {
        Seq::<char>::empty()
    } else if t[i] == '{' {
        let e = scan_until_spec(t, i + 1, '}');
        if e >= t.len() {
            t.subrange(i, t.len() as int)
        } else {
            let c = scan_until_spec(t, i + 1, ':');
            let ne = if c < e {
                c
            } else {
                e
            };
            let name = t.subrange(i + 1, ne);
            if name == "kind"@ {
                kind + render_from(t, e + 1, kind, source)
            } else if name == "source"@ {
                source + render_from(t, e + 1, kind, source)
            } else {
                t.subrange(i, e + 1) + render_from(t, e + 1, kind, source)
            }
        }
    } else {
        seq![t[i]] + render_from(t, i + 1, kind, source)
    }
}

#[via_fn]
proof fn render_from_dec(t: Seq<char>, i: int, kind: Seq<char>, source: Seq<char>) {
    lemma_scan_until_bounds(t, i + 1, '}');
}

/// The rendering of a whole template.
pub open spec fn render_spec(t: Seq<char>, kind: Seq<char>, source: Seq<char>) -> Seq<char> {
    render_from(t, 0, kind, source)
}

/// The built-in display template, as text.
pub fn default_template_text() -> (r: &'static str)
    ensures
        r@ == default_template(),
{
    "error kind: {kind:?}, source: {source:?}"
}

/// Render a display template with the given formatted texts of the kind
/// and the source.
pub fn render_display(template: &str, kind_text: &str, source_text: &str) -> (r: String)
    ensures
        r@ == render_spec(template@, kind_text@, source_text@),
{
    let ghost kd = kind_text@;
    let ghost sd = source_text@;
    let t = to_chars(template);
    let n = t.len();
    let mut out = String::new();
    let mut i: usize = 0;
    while i < n
        invariant
            n == t@.len(),
            t@ == template@,
            kd == kind_text@,
            sd == source_text@,
            0 <= i <= n,
            render_from(t@, 0, kd, sd) == out@ + render_from(t@, i as int, kd, sd),
        decreases n - i,
    {
        let ghost out0 = out@;
        let ch = t[i];
        if ch == '{' {
            let e = crate::parser::scan_until(&t, i + 1, '}');
            if e >= n {
                let rest = range_to_string(&t, i, n);
                out.append(rest.as_str());
                proof {
                    assert(render_from(t@, i as int, kd, sd) == t@.subrange(i as int, n as int));
                    assert(out@ + render_from(t@, n as int, kd, sd) =~= out0 + render_from(
                        t@,
                        i as int,
                        kd,
                        sd,
                    ));
                }
                i = n;
            } else {
                let ccol = crate::parser::scan_until(&t, i + 1, ':');
                let ne = if ccol < e {
                    ccol
                } else {
                    e
                };
                if range_is(&t, i + 1, ne, "kind") {
                    out.append(kind_text);
                    proof {
                        assert(render_from(t@, i as int, kd, sd) == kd + render_from(
                            t@,
                            e + 1 as int,
                            kd,
                            sd,
                        ));
                        assert(out@ + render_from(t@, e + 1 as int, kd, sd) =~= out0 + render_from(
                            t@,
                            i as int,
                            kd,
                            sd,
                        ));
                    }
                    i = e + 1;
                } else if range_is(&t, i + 1, ne, "source") {
                    out.append(source_text);
                    proof {
                        assert(render_from(t@, i as int, kd, sd) == sd + render_from(
                            t@,
                            e + 1 as int,
                            kd,
                            sd,
                        ));
                        assert(out@ + render_from(t@, e + 1 as int, kd, sd) =~= out0 + render_from(
                            t@,
                            i as int,
                            kd,
                            sd,
                        ));
                    }
                    i = e + 1;
                } else {
                    let verb = range_to_string(&t, i, e + 1);
                    out.append(verb.as_str());
                    proof {
                        assert(render_from(t@, i as int, kd, sd) == t@.subrange(i as int, e + 1 as int)
                            + render_from(t@, e + 1 as int, kd, sd));
                        assert(out@ + render_from(t@, e + 1 as int, kd, sd) =~= out0 + render_from(
                            t@,
                            i as int,
                            kd,
                            sd,
                        ));
                    }
                    i = e + 1;
                }
            }
        } else {
            push_char(&mut out, ch);
            proof {
                assert(render_from(t@, i as int, kd, sd) == seq![t@[i as int]] + render_from(
                    t@,
                    i + 1 as int,
                    kd,
                    sd,
                ));
                assert(out@ + render_from(t@, i + 1 as int, kd, sd) =~= out0 + render_from(
                    t@,
                    i as int,
                    kd,
                    sd,
                ));
            }
            i = i + 1;
        }
    }
    proof {
        assert(render_from(t@, n as int, kd, sd) =~= Seq::<char>::empty());
        assert(out@ =~= render_from(t@, 0, kd, sd));
    }
    out
}

/// A stretch of template text holding no opening brace is copied verbatim.
pub proof fn lemma_render_copies(t: Seq<char>, i: int, m: int, kind: Seq<char>, source: Seq<char>)
    requires
        0 <= i <= m <= t.len(),
        forall|j: int| i <= j < m ==> t[j] != '{',
    ensures
        render_from(t, i, kind, source) == t.subrange(i, m) + render_from(t, m, kind, source),
    decreases m - i,
{
    if i == m {
        assert(t.subrange(i, m) =~= Seq::<char>::empty());
        assert(t.subrange(i, m) + render_from(t, m, kind, source) =~= render_from(
            t,
            i,
            kind,
            source,
        ));
    } else {
        lemma_render_copies(t, i + 1, m, kind, source);
        assert(render_from(t, i, kind, source) == seq![t[i]] + render_from(t, i + 1, kind, source));
        assert(t.subrange(i, m) =~= seq![t[i]] + t.subrange(i + 1, m));
        assert(seq![t[i]] + (t.subrange(i + 1, m) + render_from(t, m, kind, source)) =~= (seq![t[i]]
            + t.subrange(i + 1, m)) + render_from(t, m, kind, source));
    }
}

/// A `{kind:?}` placeholder renders as the kind's formatted text.
proof fn lemma_render_kind_at(t: Seq<char>, i: int, kind: Seq<char>, source: Seq<char>)
    requires
        0 <= i,
        i + 8 <= t.len(),
        t.subrange(i, i + 8) == "{kind:?}"@,
    ensures
        render_from(t, i, kind, source) == kind + render_from(t, i + 8, kind, source),
{
    reveal_strlit("{kind:?}");
    reveal_strlit("kind");
    let p = "{kind:?}"@;
    assert(p.len() == 8);
    assert forall|j: int| i <= j < i + 8 implies t[j] == p[j - i] by {
        assert(t.subrange(i, i + 8)[j - i] == t[j]);
    }
    assert(t[i] == '{');
    assert(t[i + 7] == '}');
    assert(t[i + 5] == ':');
    assert forall|j: int| i + 1 <= j < i + 7 implies t[j] != '}' by {
        assert(j == i + 1 || j == i + 2 || j == i + 3 || j == i + 4 || j == i + 5 || j == i + 6);
    }
    lemma_scan_until_exact(t, i + 1, i + 7, '}');
    assert forall|j: int| i + 1 <= j < i + 5 implies t[j] != ':' by {
        assert(j == i + 1 || j == i + 2 || j == i + 3 || j == i + 4);
    }
    lemma_scan_until_exact(t, i + 1, i + 5, ':');
    assert(t.subrange(i + 1, i + 5) =~= "kind"@);
    assert(render_from(t, i, kind, source) == kind + render_from(t, i + 8, kind, source));
}

/// A `{source:?}` placeholder renders as the source's formatted text.
proof fn lemma_render_source_at(t: Seq<char>, i: int, kind: Seq<char>, source: Seq<char>)
    requires
        0 <= i,
        i + 10 <= t.len(),
        t.subrange(i, i + 10) == "{source:?}"@,
    ensures
        render_from(t, i, kind, source) == source + render_from(t, i + 10, kind, source),
{
    reveal_strlit("{source:?}");
    reveal_strlit("source");
    reveal_strlit("kind");
    let p = "{source:?}"@;
    assert(p.len() == 10);
    assert forall|j: int| i <= j < i + 10 implies t[j] == p[j - i] by {
        assert(t.subrange(i, i + 10)[j - i] == t[j]);
    }
    assert(t[i] == '{');
    assert(t[i + 9] == '}');
    assert(t[i + 7] == ':');
    assert forall|j: int| i + 1 <= j < i + 9 implies t[j] != '}' by {
        assert(j == i + 1 || j == i + 2 || j == i + 3 || j == i + 4 || j == i + 5 || j == i + 6 || j
            == i + 7 || j == i + 8);
    }
    lemma_scan_until_exact(t, i + 1, i + 9, '}');
    assert forall|j: int| i + 1 <= j < i + 7 implies t[j] != ':' by {
        assert(j == i + 1 || j == i + 2 || j == i + 3 || j == i + 4 || j == i + 5 || j == i + 6);
    }
    lemma_scan_until_exact(t, i + 1, i + 7, ':');
    assert(t.subrange(i + 1, i + 7) =~= "source"@);
    assert(render_from(t, i, kind, source) == source + render_from(t, i + 10, kind, source));
}

/// A custom template is used verbatim: a template of the shape
/// `pre{kind:?}mid{source:?}post`, with no opening brace in `pre`, `mid`
/// or `post`, renders exactly as `pre`, then the kind's formatted text,
/// then `mid`, then the source's formatted text, then `post`. In
/// particular the rendering contains the two formatted fields as
/// substrings.
pub proof fn lemma_render_two_placeholders(
    pre: Seq<char>,
    mid: Seq<char>,
    post: Seq<char>,
    kind: Seq<char>,
    source: Seq<char>,
)
    requires
        forall|j: int| 0 <= j < pre.len() ==> pre[j] != '{',
        forall|j: int| 0 <= j < mid.len() ==> mid[j] != '{',
        forall|j: int| 0 <= j < post.len() ==> post[j] != '{',
    ensures
        render_spec(pre + "{kind:?}"@ + mid + "{source:?}"@ + post, kind, source) == pre + kind
            + mid + source + post,
{
    reveal_strlit("{kind:?}");
    reveal_strlit("{source:?}");
    let t = pre + "{kind:?}"@ + mid + "{source:?}"@ + post;
    let a = pre.len() as int;
    let b = a + 8;
    let c = b + mid.len() as int;
    let d = c + 10;
    assert(t.len() == d + post.len());
    assert forall|j: int| 0 <= j < a implies t[j] == pre[j] && t[j] != '{' by {}
    lemma_render_copies(t, 0, a, kind, source);
    assert(t.subrange(0, a) =~= pre);
    assert(t.subrange(a, b) =~= "{kind:?}"@);
    lemma_render_kind_at(t, a, kind, source);
    assert forall|j: int| b <= j < c implies t[j] == mid[j - b] && t[j] != '{' by {}
    lemma_render_copies(t, b, c, kind, source);
    assert(t.subrange(b, c) =~= mid);
    assert(t.subrange(c, d) =~= "{source:?}"@);
    lemma_render_source_at(t, c, kind, source);
    assert forall|j: int| d <= j < t.len() implies t[j] == post[j - d] && t[j] != '{' by {}
    lemma_render_copies(t, d, t.len() as int, kind, source);
    assert(t.subrange(d, t.len() as int) =~= post);
    assert(render_from(t, t.len() as int, kind, source) =~= Seq::<char>::empty());
    assert(render_from(t, 0, kind, source) =~= pre + kind + mid + source + post);
}

/// With `display` omitted the built-in template is in force: for any
/// formatted kind text and source text it renders exactly as
/// `"error kind: "`, the kind's text, `", source: "`, the source's text.
pub proof fn lemma_default_display(kind: Seq<char>, source: Seq<char>)
    ensures
        render_spec(default_template(), kind, source) == "error kind: "@ + kind + ", source: "@
            + source,
{
    reveal_strlit("error kind: {kind:?}, source: {source:?}");
    reveal_strlit("error kind: ");
    reveal_strlit(", source: ");
    reveal_strlit("{kind:?}");
    reveal_strlit("{source:?}");
    reveal_strlit("");
    let pre = "error kind: "@;
    let mid = ", source: "@;
    let post = ""@;
    assert(pre.len() == 12);
    assert(mid.len() == 10);
    assert(post.len() == 0);
    assert forall|j: int| 0 <= j < 12 implies pre[j] != '{' by {
        assert(j == 0 || j == 1 || j == 2 || j == 3 || j == 4 || j == 5 || j == 6 || j == 7 || j
            == 8 || j == 9 || j == 10 || j == 11);
    }
    assert forall|j: int| 0 <= j < 10 implies mid[j] != '{' by {
        assert(j == 0 || j == 1 || j == 2 || j == 3 || j == 4 || j == 5 || j == 6 || j == 7 || j
            == 8 || j == 9);
    }
    lemma_render_two_placeholders(pre, mid, post, kind, source);
    let t = pre + "{kind:?}"@ + mid + "{source:?}"@ + post;
    assert(t.len() == 40);
    assert forall|j: int| 0 <= j < 40 implies t[j] == default_template()[j] by {
        assert(j == 0 || j == 1 || j == 2 || j == 3 || j == 4 || j == 5 || j == 6 || j == 7 || j
            == 8 || j == 9 || j == 10 || j == 11 || j == 12 || j == 13 || j == 14 || j == 15 || j
            == 16 || j == 17 || j == 18 || j == 19 || j == 20 || j == 21 || j == 22 || j == 23 || j
            == 24 || j == 25 || j == 26 || j == 27 || j == 28 || j == 29 || j == 30 || j == 31 || j
            == 32 || j == 33 || j == 34 || j == 35 || j == 36 || j == 37 || j == 38 || j == 39);
    }
    assert(t =~= default_template());
    assert(pre + kind + mid + source + post =~= pre + kind + mid + source);
}

} // verus!
