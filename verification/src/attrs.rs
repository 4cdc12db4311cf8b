//! The configuration record parsed from the `kind_error` attribute, and the
//! model of the annotated declaration handed in by the embedding compiler.

use vstd::prelude::*;

verus! {

/// The raw configuration parsed from the attribute: every optional field is
/// still optional here; defaults are filled in by the resolver.
pub struct KindErrorAttrs {
    /// The source (cause) type's text; required for generation.
    pub source: Option<String>,
    /// Visibility text of the generated constructor.
    pub new_vis: Option<String>,
    /// Identifier of the generated struct.
    pub name: Option<String>,
    /// Visibility text of the generated struct.
    pub type_vis: Option<String>,
    /// Visibility text of the `kind()` accessor.
    pub kind_fn_vis: Option<String>,
    /// Visibility text of the `origin()` accessor.
    pub origin_fn_vis: Option<String>,
    /// Whether the error-trait `source()` method is emitted.
    pub source_fn: bool,
    /// Custom display template, used verbatim when present.
    pub display: Option<String>,
}

/// The mathematical model of a configuration record.
pub ghost struct AttrsView {
    pub source: Option<Seq<char>>,
    pub new_vis: Option<Seq<char>>,
    pub name: Option<Seq<char>>,
    pub type_vis: Option<Seq<char>>,
    pub kind_fn_vis: Option<Seq<char>>,
    pub origin_fn_vis: Option<Seq<char>>,
    pub source_fn: bool,
    pub display: Option<Seq<char>>,
}

pub open spec fn opt_view(o: Option<String>) -> Option<Seq<char>> {
    match o {
        Option::Some(s) => Option::Some(s@),
        Option::None => Option::None,
    }
}

impl View for KindErrorAttrs {
    type V = AttrsView;

    open spec fn view(&self) -> AttrsView {
        AttrsView {
            source: opt_view(self.source),
            new_vis: opt_view(self.new_vis),
            name: opt_view(self.name),
            type_vis: opt_view(self.type_vis),
            kind_fn_vis: opt_view(self.kind_fn_vis),
            origin_fn_vis: opt_view(self.origin_fn_vis),
            source_fn: self.source_fn,
            display: opt_view(self.display),
        }
    }
}

/// The configuration before any pair has been read: everything unset, and
/// the error-trait `source()` method emitted by default.
pub open spec fn attrs_init() -> AttrsView {
    AttrsView {
        source: Option::None,
        new_vis: Option::None,
        name: Option::None,
        type_vis: Option::None,
        kind_fn_vis: Option::None,
        origin_fn_vis: Option::None,
        source_fn: true,
        display: Option::None,
    }
}

impl KindErrorAttrs {
    /// The record with every field at its unset state.
    pub fn empty() -> (r: KindErrorAttrs)
        ensures
            r@ == attrs_init(),
    {
        KindErrorAttrs {
            source: None,
            new_vis: None,
            name: None,
            type_vis: None,
            kind_fn_vis: None,
            origin_fn_vis: None,
            source_fn: true,
            display: None,
        }
    }
}

/// One attribute of the annotated declaration, as the embedding compiler
/// hands it in: its path text, and the text between its parentheses where
/// it is of list form (`None` for an attribute written without a list).
pub struct InputAttr {
    pub name: String,
    pub args: Option<String>,
}

/// The model of one input attribute.
pub ghost struct InputAttrView {
    pub name: Seq<char>,
    pub args: Option<Seq<char>>,
}

impl View for InputAttr {
    type V = InputAttrView;

    open spec fn view(&self) -> InputAttrView {
        InputAttrView { name: self.name@, args: opt_view(self.args) }
    }
}

/// The annotated declaration: whether it is an enum, its identifier, and
/// its attributes in source order. Variant payloads are opaque to the
/// generator and never inspected, so they do not appear in the model.
pub struct DeriveItem {
    pub is_enum: bool,
    pub ident: String,
    pub attrs: Vec<InputAttr>,
}

/// The model of the annotated declaration.
pub ghost struct DeriveItemView {
    pub is_enum: bool,
    pub ident: Seq<char>,
    pub attrs: Seq<InputAttrView>,
}

impl View for DeriveItem {
    type V = DeriveItemView;

    open spec fn view(&self) -> DeriveItemView {
        DeriveItemView {
            is_enum: self.is_enum,
            ident: self.ident@,
            attrs: Seq::new(self.attrs@.len(), |i: int| self.attrs@[i]@),
        }
    }
}

} // verus!
