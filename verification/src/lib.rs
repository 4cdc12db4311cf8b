//! A compile-time generator of `io::Error`-style error types.
//!
//! Given a description of an annotated enum declaration — whether it is an
//! enum, its identifier, and the attributes attached to it — the library
//! parses the `kind_error` attribute's `key = value` configuration
//! mini-language, validates it, fills in the documented defaults, and emits
//! the source text of a companion error struct: a `kind` discriminant paired
//! with an underlying `source` cause value, with a constructor, `kind()` and
//! `origin()` accessors, a `Display` implementation and an error-trait
//! implementation. Every failure surfaces as one structured diagnostic and
//! the invocation emits nothing else.

use vstd::prelude::*;

pub mod attrs;
pub mod diag;
pub mod generated;
pub mod parser;
pub mod plan;
pub mod render;
pub mod reparse;
pub mod synth;
pub mod text;

use crate::attrs::{attrs_init, AttrsView, DeriveItem, DeriveItemView, InputAttr, InputAttrView, KindErrorAttrs};
use crate::diag::{Diag, DiagView};
use crate::parser::{parse_attr_body, parse_body_spec};
use crate::plan::{resolve, resolve_spec};
use crate::synth::{synth_spec, synthesize};
use crate::text::{str_eq, to_chars};

verus! {

/// The models of a vector of input attributes, in order.
pub open spec fn attrs_seq(attrs: Seq<InputAttr>) -> Seq<InputAttrView> {
    Seq::new(attrs.len(), |i: int| attrs[i]@)
}

/// The first attribute named `kind_error`, scanning from index `i`.
pub open spec fn find_attr_spec(attrs: Seq<InputAttrView>, i: int) -> Option<InputAttrView>
    decreases attrs.len() - i,
{
    if i >= attrs.len() {
        Option::None
    } else if attrs[i].name == "kind_error"@ {
        Option::Some(attrs[i])
    } else {
        find_attr_spec(attrs, i + 1)
    }
}

/// The configuration carried by a declaration's attributes: the first
/// `kind_error` attribute parsed, the defaults when none is present, and
/// the diagnostic owed when it is present but not of list form.
pub open spec fn attrs_of_item_spec(attrs: Seq<InputAttrView>) -> Result<AttrsView, DiagView> {
    match find_attr_spec(attrs, 0) {
        Option::None => Ok(attrs_init()),
        Option::Some(a) => match a.args {
            Option::None => Err(DiagView::NotList),
            Option::Some(body) => parse_body_spec(body),
        },
    }
}

/// What one invocation of the generator produces for a declaration: the
/// emitted fragment's text, or the first diagnostic in rule order — a
/// non-enum declaration, then any parse failure, then a missing `source`.
pub open spec fn kind_error_spec(it: DeriveItemView) -> Result<Seq<char>, DiagView> {
    if !it.is_enum {
        Err(DiagView::NotEnum)
    } else {
        match attrs_of_item_spec(it.attrs) {
            Err(d) => Err(d),
            Ok(a) => match resolve_spec(a) {
                Err(d) => Err(d),
                Ok(p) => Ok(synth_spec(p, it.ident)),
            },
        }
    }
}

fn find_kind_error(attrs: &Vec<InputAttr>) -> (r: Option<usize>)
    ensures
        match r {
            Some(idx) => idx < attrs@.len() && find_attr_spec(attrs_seq(attrs@), 0)
                == Option::Some(attrs_seq(attrs@)[idx as int]),
            None => find_attr_spec(attrs_seq(attrs@), 0) is None,
        },
{
    let ghost s = attrs_seq(attrs@);
    let n = attrs.len();
    let mut i: usize = 0;
    while i < n
        invariant
            n == attrs@.len(),
            0 <= i <= n,
            s == attrs_seq(attrs@),
            find_attr_spec(s, 0) == find_attr_spec(s, i as int),
        decreases n - i,
    {
        if str_eq(attrs[i].name.as_str(), "kind_error") {
            assert(s[i as int].name == "kind_error"@);
            assert(find_attr_spec(s, i as int) == Option::Some(s[i as int]));
            return Some(i);
        }
        assert(s[i as int].name != "kind_error"@);
        assert(find_attr_spec(s, i as int) == find_attr_spec(s, i + 1 as int));
        i = i + 1;
    }
    assert(find_attr_spec(s, i as int) is None);
    None
}

/// Find the `kind_error` attribute among a declaration's attributes and
/// parse its body; a declaration without one gets the all-default record.
pub fn parse_kind_error_attrs(attrs: &Vec<InputAttr>) -> (r: Result<KindErrorAttrs, Diag>)
    ensures
        match r {
            Ok(a) => attrs_of_item_spec(attrs_seq(attrs@)) == Ok::<AttrsView, DiagView>(a@),
            Err(d) => attrs_of_item_spec(attrs_seq(attrs@)) == Err::<AttrsView, DiagView>(d@),
        },
{
    match find_kind_error(attrs) {
        None => Ok(KindErrorAttrs::empty()),
        Some(idx) => {
            let a = &attrs[idx];
            assert(a@ == attrs_seq(attrs@)[idx as int]);
            match &a.args {
                None => Err(Diag::NotList),
                Some(body) => {
                    let chars = to_chars(body.as_str());
                    parse_attr_body(&chars)
                },
            }
        },
    }
}

/// Run one invocation of the generator: reject non-enum declarations, parse
/// and validate the configuration, and emit the generated fragment.
pub fn kind_error_impl(item: &DeriveItem) -> (r: Result<String, Diag>)
    ensures
        match r {
            Ok(t) => kind_error_spec(item@) == Ok::<Seq<char>, DiagView>(t@),
            Err(d) => kind_error_spec(item@) == Err::<Seq<char>, DiagView>(d@),
        },
{
    if !item.is_enum {
        return Err(Diag::NotEnum);
    }
    let attrs = match parse_kind_error_attrs(&item.attrs) {
        Ok(a) => a,
        Err(d) => {
            return Err(d);
        },
    };
    let plan = match resolve(attrs) {
        Ok(p) => p,
        Err(d) => {
            return Err(d);
        },
    };
    Ok(synthesize(&plan, item.ident.as_str()))
}

} // verus!
