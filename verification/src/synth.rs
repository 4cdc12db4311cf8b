//! The type synthesizer: from a resolved plan and the annotated enum's
//! identifier, emit the source text of the companion error type — the
//! struct, its constructor and accessors, its `Display` implementation and
//! its error-trait implementation. The synthesis is pure concatenation: a
//! visibility or type fragment and a custom display template are spliced
//! verbatim, exactly as the plan holds them.

use vstd::prelude::*;
use crate::plan::{Plan, PlanView};

verus! {

use vstd::string::StringExecFns;

/// A visibility fragment as it stands before an item: the text plus one
/// space, or nothing at all for inherited (empty) visibility.
pub open spec fn vis_prefix(v: Seq<char>) -> Seq<char> {
    if v.len() == 0 {
        Seq::<char>::empty()
    } else {
        v + " "@
    }
}

/// The generated struct declaration.
pub open spec fn struct_spec(p: PlanView, kind: Seq<char>) -> Seq<char> {
    "#[derive(::core::fmt::Debug)]\n"@ + vis_prefix(p.type_vis) + "struct "@ + p.name
        + " {\n    kind: "@ + kind + ",\n    source: "@ + p.source + ",\n}\n\n"@
}

/// The generated inherent impl: constructor and the two accessors.
pub open spec fn methods_spec(p: PlanView, kind: Seq<char>) -> Seq<char> {
    "impl "@ + p.name + " {\n    "@ + vis_prefix(p.new_vis) + "fn new(kind: "@ + kind
        + ", source: "@ + p.source + ") -> Self {\n        Self { kind, source }\n    }\n\n    "@
        + vis_prefix(p.kind_fn_vis) + "fn kind(&self) -> &"@ + kind
        + " {\n        &self.kind\n    }\n\n    "@ + vis_prefix(p.origin_fn_vis)
        + "fn origin(&self) -> &"@ + p.source + " {\n        &self.source\n    }\n}\n\n"@
}

/// The generated `Display` impl: the custom template spliced verbatim when
/// one was configured, else the built-in debug-style template.
pub open spec fn display_spec(p: PlanView) -> Seq<char> {
    match p.display {
        Option::Some(t) => "impl ::core::fmt::Display for "@ + p.name
            + " {\n    fn fmt(&self, f: &mut ::core::fmt::Formatter<'_>) -> ::core::fmt::Result {\n        let kind = &self.kind;\n        let source = &self.source;\n        write!(f, \""@
            + t + "\")\n    }\n}\n\n"@,
        Option::None => "impl ::core::fmt::Display for "@ + p.name
            + " {\n    fn fmt(&self, f: &mut ::core::fmt::Formatter<'_>) -> ::core::fmt::Result {\n        write!(f, \"error kind: {:?}, source: {:?}\", self.kind, self.source)\n    }\n}\n\n"@,
    }
}

/// The error-trait `source()` method, present exactly when `source_fn` is
/// set.
pub open spec fn source_method_spec() -> Seq<char> {
    "    fn source(&self) -> Option<&(dyn ::core::error::Error + 'static)> {\n        Some(&self.source)\n    }\n"@
}

/// The generated error-trait impl.
pub open spec fn error_impl_spec(p: PlanView) -> Seq<char> {
    "impl ::core::error::Error for "@ + p.name + " {\n"@ + (if p.source_fn {
        source_method_spec()
    } else {
        Seq::<char>::empty()
    }) + "}\n"@
}

/// The whole emitted fragment.
pub open spec fn synth_spec(p: PlanView, kind: Seq<char>) -> Seq<char> {
    struct_spec(p, kind) + methods_spec(p, kind) + display_spec(p) + error_impl_spec(p)
}

/// A custom display template is spliced into the emitted fragment
/// verbatim: the whole output is some prefix, then the template's
/// characters unchanged, then some suffix.
pub proof fn lemma_template_verbatim(p: PlanView, kind: Seq<char>, t: Seq<char>)
    requires
        p.display == Option::Some(t),
    ensures
        exists|a: Seq<char>, b: Seq<char>| synth_spec(p, kind) == a + t + b,
{
    let a = struct_spec(p, kind) + methods_spec(p, kind) + ("impl ::core::fmt::Display for "@
        + p.name
        + " {\n    fn fmt(&self, f: &mut ::core::fmt::Formatter<'_>) -> ::core::fmt::Result {\n        let kind = &self.kind;\n        let source = &self.source;\n        write!(f, \""@);
    let b = "\")\n    }\n}\n\n"@ + error_impl_spec(p);
    assert(synth_spec(p, kind) =~= a + t + b);
}

fn append_vis(out: &mut String, v: &String)
    ensures
        final(out)@ == old(out)@ + vis_prefix(v@),
{
    if !v.as_str().is_empty() {
        out.append(v.as_str());
        out.append(" ");
        proof {
            assert(out@ =~= old(out)@ + vis_prefix(v@));
        }
    } else {
        proof {
            assert(out@ =~= old(out)@ + vis_prefix(v@));
        }
    }
}

fn push_struct_text(out: &mut String, p: &Plan, kind: &str)
    ensures
        final(out)@ == old(out)@ + struct_spec(p@, kind@),
{
    out.append("#[derive(::core::fmt::Debug)]\n");
    append_vis(out, &p.type_vis);
    out.append("struct ");
    out.append(p.name.as_str());
    out.append(" {\n    kind: ");
    out.append(kind);
    out.append(",\n    source: ");
    out.append(p.source.as_str());
    out.append(",\n}\n\n");
    proof {
        assert(out@ =~= old(out)@ + struct_spec(p@, kind@));
    }
}

fn push_methods_text(out: &mut String, p: &Plan, kind: &str)
    ensures
        final(out)@ == old(out)@ + methods_spec(p@, kind@),
{
    out.append("impl ");
    out.append(p.name.as_str());
    out.append(" {\n    ");
    append_vis(out, &p.new_vis);
    out.append("fn new(kind: ");
    out.append(kind);
    out.append(", source: ");
    out.append(p.source.as_str());
    out.append(") -> Self {\n        Self { kind, source }\n    }\n\n    ");
    append_vis(out, &p.kind_fn_vis);
    out.append("fn kind(&self) -> &");
    out.append(kind);
    out.append(" {\n        &self.kind\n    }\n\n    ");
    append_vis(out, &p.origin_fn_vis);
    out.append("fn origin(&self) -> &");
    out.append(p.source.as_str());
    out.append(" {\n        &self.source\n    }\n}\n\n");
    proof {
        assert(out@ =~= old(out)@ + methods_spec(p@, kind@));
    }
}

fn push_display_text(out: &mut String, p: &Plan)
    ensures
        final(out)@ == old(out)@ + display_spec(p@),
{
    out.append("impl ::core::fmt::Display for ");
    out.append(p.name.as_str());
    match &p.display {
        Some(t) => {
            out.append(
                " {\n    fn fmt(&self, f: &mut ::core::fmt::Formatter<'_>) -> ::core::fmt::Result {\n        let kind = &self.kind;\n        let source = &self.source;\n        write!(f, \"",
            );
            out.append(t.as_str());
            out.append("\")\n    }\n}\n\n");
        },
        None => {
            out.append(
                " {\n    fn fmt(&self, f: &mut ::core::fmt::Formatter<'_>) -> ::core::fmt::Result {\n        write!(f, \"error kind: {:?}, source: {:?}\", self.kind, self.source)\n    }\n}\n\n",
            );
        },
    }
    proof {
        assert(out@ =~= old(out)@ + display_spec(p@));
    }
}

fn push_error_impl_text(out: &mut String, p: &Plan)
    ensures
        final(out)@ == old(out)@ + error_impl_spec(p@),
{
    out.append("impl ::core::error::Error for ");
    out.append(p.name.as_str());
    out.append(" {\n");
    if p.source_fn {
        out.append(
            "    fn source(&self) -> Option<&(dyn ::core::error::Error + 'static)> {\n        Some(&self.source)\n    }\n",
        );
    }
    out.append("}\n");
    proof {
        assert(out@ =~= old(out)@ + error_impl_spec(p@));
    }
}

/// Emit the whole generated fragment for a resolved plan and the annotated
/// enum's identifier.
pub fn synthesize(p: &Plan, kind: &str) -> (r: String)
    ensures
        r@ == synth_spec(p@, kind@),
{
    let mut out = String::new();
    push_struct_text(&mut out, p, kind);
    push_methods_text(&mut out, p, kind);
    push_display_text(&mut out, p);
    push_error_impl_text(&mut out, p);
    proof {
        assert(out@ =~= synth_spec(p@, kind@));
    }
    out
}

} // verus!
