#![allow(unused)]

use kinderror::attrs::{DeriveItem, InputAttr};
use kinderror::diag::Diag;
use kinderror::generated::KindError;
use kinderror::kind_error_impl;
use kinderror::render::{default_template_text, render_display};

fn enum_item_with(ident: &str, args: Option<&str>) -> DeriveItem {
    DeriveItem {
        is_enum: true,
        ident: ident.to_string(),
        attrs: vec![InputAttr {
            name: "kind_error".to_string(),
            args: args.map(|a| a.to_string()),
        }],
    }
}

fn gen(args: &str) -> Result<String, Diag> {
    kind_error_impl(&enum_item_with("MyKind", Some(args)))
}

#[test]
fn test_full_output_exact() {
    let generated = gen("source = \"io::Error\"").unwrap();
    let expected = "#[derive(::core::fmt::Debug)]\nstruct Error {\n    kind: MyKind,\n    source: io::Error,\n}\n\nimpl Error {\n    fn new(kind: MyKind, source: io::Error) -> Self {\n        Self { kind, source }\n    }\n\n    pub fn kind(&self) -> &MyKind {\n        &self.kind\n    }\n\n    pub fn origin(&self) -> &io::Error {\n        &self.source\n    }\n}\n\nimpl ::core::fmt::Display for Error {\n    fn fmt(&self, f: &mut ::core::fmt::Formatter<'_>) -> ::core::fmt::Result {\n        write!(f, \"error kind: {:?}, source: {:?}\", self.kind, self.source)\n    }\n}\n\nimpl ::core::error::Error for Error {\n    fn source(&self) -> Option<&(dyn ::core::error::Error + 'static)> {\n        Some(&self.source)\n    }\n}\n";
    assert_eq!(generated, expected);
}

#[test]
fn test_unknown_key() {
    let err = gen("foo = \"bar\"").unwrap_err();
    assert!(matches!(err, Diag::UnknownKey(_)));
    assert_eq!(err.message(), "unknown attribute key: foo");
}

#[test]
fn test_missing_source() {
    let err = gen("name = \"E\"").unwrap_err();
    assert!(matches!(err, Diag::SourceRequired));
    assert_eq!(err.message(), "source attribute is required");
}

#[test]
fn test_struct_rejected() {
    let item = DeriveItem {
        is_enum: false,
        ident: "NotAnEnum".to_string(),
        attrs: vec![InputAttr {
            name: "kind_error".to_string(),
            args: Some("source = \"io::Error\"".to_string()),
        }],
    };
    let err = kind_error_impl(&item).unwrap_err();
    assert!(matches!(err, Diag::NotEnum));
    assert_eq!(err.message(), "This macro only supports Enum, not for other types");
}

#[test]
fn test_attr_not_list() {
    let err = kind_error_impl(&enum_item_with("MyKind", None)).unwrap_err();
    assert!(matches!(err, Diag::NotList));
    assert_eq!(
        err.message(),
        "kind_error attribute must be in the form #[kind_error(...)]"
    );
}

#[test]
fn test_no_attribute_means_defaults() {
    let item = DeriveItem {
        is_enum: true,
        ident: "MyKind".to_string(),
        attrs: vec![InputAttr { name: "derive".to_string(), args: Some("Debug".to_string()) }],
    };
    let err = kind_error_impl(&item).unwrap_err();
    assert!(matches!(err, Diag::SourceRequired));
}

#[test]
fn test_invalid_source_type() {
    let err = gen("source = \"not a type !!!\"").unwrap_err();
    assert!(matches!(err, Diag::InvalidType(_)));
    assert_eq!(err.message(), "cannot parse as a type: not a type !!!");
}

#[test]
fn test_invalid_visibility() {
    let err = gen("source = \"io::Error\", new_vis = \"frobnicate\"").unwrap_err();
    assert!(matches!(err, Diag::InvalidVisibility(_)));
    assert_eq!(err.message(), "cannot parse as a visibility: frobnicate");
}

#[test]
fn test_unknown_key_after_valid_pair() {
    let err = gen("source = \"io::Error\", frob = \"x\"").unwrap_err();
    assert!(matches!(err, Diag::UnknownKey(_)));
    assert_eq!(err.message(), "unknown attribute key: frob");
}

#[test]
fn test_invalid_name() {
    let err = gen("source = \"io::Error\", name = \"123bad\"").unwrap_err();
    assert!(matches!(err, Diag::InvalidName(_)));
    assert_eq!(err.message(), "name is not a valid identifier: 123bad");
}

#[test]
fn test_invalid_name_with_space() {
    let err = gen("source = \"io::Error\", name = \"a b\"").unwrap_err();
    assert!(matches!(err, Diag::InvalidName(_)));
}

#[test]
fn test_empty_name_rejected() {
    let err = gen("source = \"io::Error\", name = \"\"").unwrap_err();
    assert!(matches!(err, Diag::InvalidName(_)));
    assert_eq!(err.message(), "name is not a valid identifier: ");
}

#[test]
fn test_escaped_quote_in_display() {
    // The attribute reads: display = "say \"hi\" kind={kind:?}"
    let generated = gen(
        "source = \"io::Error\", display = \"say \\\"hi\\\" kind={kind:?}\"",
    )
    .unwrap();
    // The literal is spliced into the emitted write! exactly as written,
    // escapes included, so the emitted code carries the same literal.
    assert!(generated.contains("write!(f, \"say \\\"hi\\\" kind={kind:?}\")"));
}

#[test]
fn test_escaped_backslash_in_display() {
    // The attribute reads: display = "tail\\end"
    let generated = gen("source = \"io::Error\", display = \"tail\\\\end\"").unwrap();
    assert!(generated.contains("write!(f, \"tail\\\\end\")"));
}

#[test]
fn test_unterminated_after_escaped_quote() {
    // The attribute reads: name = "abc\"   — the quote is escaped, so the
    // literal never closes.
    let err = gen("name = \"abc\\\"").unwrap_err();
    assert!(matches!(err, Diag::UnterminatedString));
}

#[test]
fn test_source_fn_requires_bool() {
    let err = gen("source_fn = \"true\"").unwrap_err();
    assert!(matches!(err, Diag::ExpectedBool));
}

#[test]
fn test_value_requires_string() {
    let err = gen("name = Error").unwrap_err();
    assert!(matches!(err, Diag::ExpectedString));
}

#[test]
fn test_unterminated_string() {
    let err = gen("name = \"Err").unwrap_err();
    assert!(matches!(err, Diag::UnterminatedString));
}

#[test]
fn test_missing_eq() {
    let err = gen("source \"io::Error\"").unwrap_err();
    assert!(matches!(err, Diag::ExpectedEq));
}

#[test]
fn test_missing_comma() {
    let err = gen("source = \"io::Error\" name = \"E\"").unwrap_err();
    assert!(matches!(err, Diag::ExpectedComma));
}

#[test]
fn test_key_must_be_identifier() {
    let err = gen("= \"x\"").unwrap_err();
    assert!(matches!(err, Diag::ExpectedKey));
}

#[test]
fn test_empty_body() {
    let err = gen("").unwrap_err();
    assert!(matches!(err, Diag::SourceRequired));
}

#[test]
fn test_trailing_comma_accepted() {
    let generated = gen("source = \"io::Error\",").unwrap();
    assert!(generated.contains("struct Error"));
}

#[test]
fn test_last_pair_wins() {
    let generated = gen("source = \"io::Error\", name = \"A\", name = \"B\"").unwrap();
    assert!(generated.contains("struct B"));
    assert!(!generated.contains("struct A"));
}

#[test]
fn test_source_fn_true_explicit() {
    let generated = gen("source = \"io::Error\", source_fn = true").unwrap();
    assert!(generated.contains("fn source(&self)"));
}

#[test]
fn test_visibilities_spliced() {
    let generated = gen(
        "source = \"io::Error\", new_vis = \"pub(crate)\", type_vis = \"pub\", origin_fn_vis = \"pub(crate)\"",
    )
    .unwrap();
    assert!(generated.contains("pub struct Error"));
    assert!(generated.contains("pub(crate) fn new(kind: MyKind, source: io::Error) -> Self"));
    assert!(generated.contains("pub fn kind(&self) -> &MyKind"));
    assert!(generated.contains("pub(crate) fn origin(&self) -> &io::Error"));
}

#[test]
fn test_default_display_exact() {
    let rendered = render_display(default_template_text(), "K", "S");
    assert_eq!(rendered, "error kind: K, source: S");
}

#[test]
fn test_custom_template_exact() {
    let rendered = render_display("Custom error: kind={kind:?}, source={source:?}", "A", "B");
    assert_eq!(rendered, "Custom error: kind=A, source=B");
}

#[test]
fn test_plain_placeholders() {
    let rendered = render_display("Error [kind={kind}]: {source}", "E1", "boom");
    assert_eq!(rendered, "Error [kind=E1]: boom");
}

#[test]
fn test_unknown_placeholder_verbatim() {
    let rendered = render_display("x{foo}y", "A", "B");
    assert_eq!(rendered, "x{foo}y");
}

#[test]
fn test_unclosed_brace_verbatim() {
    let rendered = render_display("a{bc", "A", "B");
    assert_eq!(rendered, "a{bc");
}

#[test]
fn test_cause_none_whatever_source() {
    let err = KindError::new(1u8, "boom".to_string());
    assert!(err.cause(false).is_none());
}

#[test]
fn test_cause_is_stored_source() {
    let err = KindError::new(1u8, 7i32);
    match err.cause(true) {
        Some(c) => {
            assert!(std::ptr::eq(c, err.origin()));
            assert_eq!(*c, 7i32);
        }
        None => panic!("cause owed when source_fn is set"),
    }
}

#[test]
fn test_new_stores_fields() {
    let err = KindError::new("kindvalue".to_string(), 5u64);
    assert_eq!(*err.kind(), "kindvalue".to_string());
    assert_eq!(*err.origin(), 5u64);
}
