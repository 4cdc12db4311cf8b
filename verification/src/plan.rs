//! Defaulting and validation: turn a raw configuration record plus the
//! annotated declaration's shape into a fully resolved generation plan.
//!
//! Rules, in order: the declaration must be an enum (checked by the
//! pipeline before parsing); `source` must be set; the constructor and
//! struct visibilities default to inherited (empty text); the two accessor
//! visibilities default to `pub`; the generated struct's name defaults to
//! `Error` and must be a well-formed identifier, since it names the emitted
//! struct; a missing `display` leaves the built-in template in force.

use vstd::prelude::*;
use crate::attrs::{AttrsView, KindErrorAttrs};
use crate::diag::{Diag, DiagView};
use crate::parser::{is_ident_seq, is_ident_text};

verus! {

use vstd::string::StringExecFns;

/// The fully resolved generation plan.
pub struct Plan {
    pub source: String,
    pub name: String,
    pub new_vis: String,
    pub type_vis: String,
    pub kind_fn_vis: String,
    pub origin_fn_vis: String,
    pub source_fn: bool,
    pub display: Option<String>,
}

/// The mathematical model of a generation plan.
pub ghost struct PlanView {
    pub source: Seq<char>,
    pub name: Seq<char>,
    pub new_vis: Seq<char>,
    pub type_vis: Seq<char>,
    pub kind_fn_vis: Seq<char>,
    pub origin_fn_vis: Seq<char>,
    pub source_fn: bool,
    pub display: Option<Seq<char>>,
}

impl View for Plan {
    type V = PlanView;

    open spec fn view(&self) -> PlanView {
        PlanView {
            source: self.source@,
            name: self.name@,
            new_vis: self.new_vis@,
            type_vis: self.type_vis@,
            kind_fn_vis: self.kind_fn_vis@,
            origin_fn_vis: self.origin_fn_vis@,
            source_fn: self.source_fn,
            display: crate::attrs::opt_view(self.display),
        }
    }
}

pub open spec fn opt_or(o: Option<Seq<char>>, d: Seq<char>) -> Seq<char> {
    match o {
        Option::Some(s) => s,
        Option::None => d,
    }
}

/// The resolved plan of a configuration record, or the diagnostic owed
/// when `source` was never set or the name cannot stand as an identifier.
pub open spec fn resolve_spec(a: AttrsView) -> Result<PlanView, DiagView> {
    match a.source {
        Option::None => Err(DiagView::SourceRequired),
        Option::Some(src) => {
            let name = opt_or(a.name, "Error"@);
            if !is_ident_seq(name) {
                Err(DiagView::InvalidName(name))
            } else {
                Ok(
                    PlanView {
                        source: src,
                        name,
                        new_vis: opt_or(a.new_vis, ""@),
                        type_vis: opt_or(a.type_vis, ""@),
                        kind_fn_vis: opt_or(a.kind_fn_vis, "pub"@),
                        origin_fn_vis: opt_or(a.origin_fn_vis, "pub"@),
                        source_fn: a.source_fn,
                        display: a.display,
                    },
                )
            }
        },
    }
}

fn opt_or_str(o: Option<String>, d: &str) -> (r: String)
    ensures
        r@ == opt_or(crate::attrs::opt_view(o), d@),
{
    match o {
        Some(s) => s,
        None => String::from_str(d),
    }
}

/// Fill the documented defaults, or fail when `source` was never set or
/// the name is no identifier.
pub fn resolve(attrs: KindErrorAttrs) -> (r: Result<Plan, Diag>)
    ensures
        match r {
            Ok(p) => resolve_spec(attrs@) == Ok::<PlanView, DiagView>(p@),
            Err(d) => resolve_spec(attrs@) == Err::<PlanView, DiagView>(d@),
        },
{
    let KindErrorAttrs { source, new_vis, name, type_vis, kind_fn_vis, origin_fn_vis, source_fn, display } =
        attrs;
    let source = match source {
        Some(s) => s,
        None => {
            return Err(Diag::SourceRequired);
        },
    };
    let name = opt_or_str(name, "Error");
    if !is_ident_text(name.as_str()) {
        return Err(Diag::InvalidName(name));
    }
    Ok(
        Plan {
            source,
            name,
            new_vis: opt_or_str(new_vis, ""),
            type_vis: opt_or_str(type_vis, ""),
            kind_fn_vis: opt_or_str(kind_fn_vis, "pub"),
            origin_fn_vis: opt_or_str(origin_fn_vis, "pub"),
            source_fn,
            display,
        },
    )
}

} // verus!
