//! Diagnostics: every failure of the parser, the validator or the
//! synthesizer is one terminal, structured diagnostic. A single invocation
//! either fully succeeds or yields exactly one of these.

use vstd::prelude::*;

verus! {

use vstd::string::StringExecFns;

/// A diagnostic, as the embedding compiler would render it.
#[derive(Debug)]
pub enum Diag {
    /// The annotated declaration is not an enum.
    NotEnum,
    /// The `kind_error` attribute is present but not of list form.
    NotList,
    /// The required `source` key was never set.
    SourceRequired,
    /// A key outside the closed key set; carries the offending key.
    UnknownKey(String),
    /// A `source`/visibility value whose text does not re-parse as a type;
    /// carries the offending text.
    InvalidType(String),
    /// A visibility value whose text does not re-parse as a visibility
    /// specifier; carries the offending text.
    InvalidVisibility(String),
    /// A `name` value that is not a well-formed identifier, so no struct
    /// could carry it; carries the offending text.
    InvalidName(String),
    /// The parser expected an identifier key.
    ExpectedKey,
    /// The parser expected `=` after a key.
    ExpectedEq,
    /// The parser expected a string literal value.
    ExpectedString,
    /// The parser expected `true` or `false`.
    ExpectedBool,
    /// A string literal with no closing quote.
    UnterminatedString,
    /// The parser expected `,` between two pairs.
    ExpectedComma,
}

/// The mathematical model of a diagnostic.
pub ghost enum DiagView {
    NotEnum,
    NotList,
    SourceRequired,
    UnknownKey(Seq<char>),
    InvalidType(Seq<char>),
    InvalidVisibility(Seq<char>),
    InvalidName(Seq<char>),
    ExpectedKey,
    ExpectedEq,
    ExpectedString,
    ExpectedBool,
    UnterminatedString,
    ExpectedComma,
}

impl View for Diag {
    type V = DiagView;

    open spec fn view(&self) -> DiagView {
        match self {
            Diag::NotEnum => DiagView::NotEnum,
            Diag::NotList => DiagView::NotList,
            Diag::SourceRequired => DiagView::SourceRequired,
            Diag::UnknownKey(k) => DiagView::UnknownKey(k@),
            Diag::InvalidType(t) => DiagView::InvalidType(t@),
            Diag::InvalidVisibility(v) => DiagView::InvalidVisibility(v@),
            Diag::InvalidName(n) => DiagView::InvalidName(n@),
            Diag::ExpectedKey => DiagView::ExpectedKey,
            Diag::ExpectedEq => DiagView::ExpectedEq,
            Diag::ExpectedString => DiagView::ExpectedString,
            Diag::ExpectedBool => DiagView::ExpectedBool,
            Diag::UnterminatedString => DiagView::UnterminatedString,
            Diag::ExpectedComma => DiagView::ExpectedComma,
        }
    }
}

/// The human-readable message of each diagnostic.
pub open spec fn message_spec(d: DiagView) -> Seq<char> {
    match d {
        DiagView::NotEnum => "This macro only supports Enum, not for other types"@,
        DiagView::NotList => "kind_error attribute must be in the form #[kind_error(...)]"@,
        DiagView::SourceRequired => "source attribute is required"@,
        DiagView::UnknownKey(k) => "unknown attribute key: "@ + k,
        DiagView::InvalidType(t) => "cannot parse as a type: "@ + t,
        DiagView::InvalidVisibility(v) => "cannot parse as a visibility: "@ + v,
        DiagView::InvalidName(n) => "name is not a valid identifier: "@ + n,
        DiagView::ExpectedKey => "expected an attribute key"@,
        DiagView::ExpectedEq => "expected `=` after the attribute key"@,
        DiagView::ExpectedString => "expected a string literal value"@,
        DiagView::ExpectedBool => "expected `true` or `false`"@,
        DiagView::UnterminatedString => "unterminated string literal"@,
        DiagView::ExpectedComma => "expected `,` between attribute pairs"@,
    }
}

impl Diag {
    /// Render the diagnostic's message.
    pub fn message(&self) -> (r: String)
        ensures
            r@ == message_spec(self@),
    {
        match self {
            Diag::NotEnum => String::from_str("This macro only supports Enum, not for other types"),
            Diag::NotList => String::from_str(
                "kind_error attribute must be in the form #[kind_error(...)]",
            ),
            Diag::SourceRequired => String::from_str("source attribute is required"),
            Diag::UnknownKey(k) => {
                let mut m = String::from_str("unknown attribute key: ");
                m.append(k.as_str());
                m
            },
            Diag::InvalidType(t) => {
                let mut m = String::from_str("cannot parse as a type: ");
                m.append(t.as_str());
                m
            },
            Diag::InvalidVisibility(v) => {
                let mut m = String::from_str("cannot parse as a visibility: ");
                m.append(v.as_str());
                m
            },
            Diag::InvalidName(n) => {
                let mut m = String::from_str("name is not a valid identifier: ");
                m.append(n.as_str());
                m
            },
            Diag::ExpectedKey => String::from_str("expected an attribute key"),
            Diag::ExpectedEq => String::from_str("expected `=` after the attribute key"),
            Diag::ExpectedString => String::from_str("expected a string literal value"),
            Diag::ExpectedBool => String::from_str("expected `true` or `false`"),
            Diag::UnterminatedString => String::from_str("unterminated string literal"),
            Diag::ExpectedComma => String::from_str("expected `,` between attribute pairs"),
        }
    }
}

} // verus!
