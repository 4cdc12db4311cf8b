#![allow(unused)]

use std::io;

use kinderror::attrs::{DeriveItem, InputAttr};
use kinderror::generated::KindError;
use kinderror::kind_error_impl;
use kinderror::render::{default_template_text, render_display};

fn enum_item(ident: &str, args: &str) -> DeriveItem {
    DeriveItem {
        is_enum: true,
        ident: ident.to_string(),
        attrs: vec![InputAttr { name: "kind_error".to_string(), args: Some(args.to_string()) }],
    }
}

#[derive(Debug, Eq, PartialEq)]
enum ErrorKind {
    First,
    Second,
}

#[test]
fn test() {
    let generated = kind_error_impl(&enum_item(
        "ErrorKind",
        "source = \"io::Error\",\n    new_vis = \"pub\",\n    name = \"Error\",\n    type_vis = \"pub\",\n    kind_fn_vis = \"pub\"",
    ))
    .unwrap();
    assert!(generated.contains("pub struct Error"));
    let err = KindError::new(ErrorKind::First, io::Error::other("err"));
    assert_eq!(*err.kind(), ErrorKind::First);
    assert!(err.cause(true).is_some());
}

// Test custom error type (does not implement Error trait)
#[derive(Debug, Clone, Copy)]
struct CustomError;

#[derive(Debug, Eq, PartialEq)]
enum CustomErrorKind {
    Kind1,
    Kind2,
}

#[test]
fn test_source_fn_false() {
    let generated = kind_error_impl(&enum_item(
        "CustomErrorKind",
        "source = \"CustomError\", source_fn = false, name = \"CustomErrorWrapper\"",
    ))
    .unwrap();
    assert!(generated.contains("struct CustomErrorWrapper"));
    assert!(!generated.contains("fn source"));
    let err = KindError::new(CustomErrorKind::Kind1, CustomError);
    assert_eq!(*err.kind(), CustomErrorKind::Kind1);
    assert!(err.cause(false).is_none());
}

// Test custom display format - using {:?} debug format
#[derive(Debug)]
enum CustomDisplayKind {
    VariantA,
    VariantB,
}

#[test]
fn test_custom_display() {
    let template = "Custom error: kind={kind:?}, source={source:?}";
    let generated = kind_error_impl(&enum_item(
        "CustomDisplayKind",
        "source = \"io::Error\",\n    name = \"CustomDisplayError\",\n    type_vis = \"pub\",\n    display = \"Custom error: kind={kind:?}, source={source:?}\"",
    ))
    .unwrap();
    // The template is spliced verbatim into the generated Display impl.
    assert!(generated.contains(template));
    let err = KindError::new(CustomDisplayKind::VariantA, io::Error::other("test error"));
    let display_str = render_display(
        template,
        &format!("{:?}", err.kind()),
        &format!("{:?}", err.origin()),
    );
    // Use the complete format string provided by the user
    assert!(display_str.contains("Custom error:"));
    assert!(display_str.contains("VariantA"));
    assert!(display_str.contains("test error"));
}

// Test custom display format - using different format specifiers
#[derive(Debug)]
enum CustomDisplayKind2 {
    ErrorType1,
    ErrorType2,
}

#[test]
fn test_custom_display_different_format() {
    let template = "Error [kind={kind}]: {source}";
    let generated = kind_error_impl(&enum_item(
        "CustomDisplayKind2",
        "source = \"io::Error\",\n    name = \"CustomDisplayError2\",\n    type_vis = \"pub\",\n    display = \"Error [kind={kind}]: {source}\"",
    ))
    .unwrap();
    assert!(generated.contains(template));
    let err = KindError::new(CustomDisplayKind2::ErrorType1, io::Error::other("some issue"));
    let display_str = render_display(
        template,
        &format!("{:?}", err.kind()),
        &format!("{}", err.origin()),
    );
    // Use different format specifiers
    assert!(display_str.contains("Error [kind="));
    assert!(display_str.contains("ErrorType1"));
    assert!(display_str.contains("some issue"));
}

// Test default display format (without specifying display attribute)
#[derive(Debug)]
enum DefaultDisplayKind {
    ErrorA,
    ErrorB,
}

#[test]
fn test_default_display() {
    let generated = kind_error_impl(&enum_item(
        "DefaultDisplayKind",
        "source = \"io::Error\", name = \"DefaultDisplayError\", type_vis = \"pub\"",
    ))
    .unwrap();
    assert!(generated.contains("error kind: {:?}, source: {:?}"));
    let err = KindError::new(DefaultDisplayKind::ErrorA, io::Error::other("default error"));
    let display_str = render_display(
        default_template_text(),
        &format!("{:?}", err.kind()),
        &format!("{:?}", err.origin()),
    );
    // Default format should be "error kind: ..., source: ..."
    assert!(display_str.contains("error kind:"));
    assert!(display_str.contains("source:"));
    assert!(display_str.contains("ErrorA"));
    assert!(display_str.contains("default error"));
}

#[derive(Debug, Eq, PartialEq)]
enum HasFieldErrorKind {
    Field1 { text: String },
    Field2,
}

#[test]
fn test_has_field() {
    let generated = kind_error_impl(&enum_item(
        "HasFieldErrorKind",
        "source = \"io::Error\", name = \"HasFieldError\"",
    ))
    .unwrap();
    assert!(generated.contains("struct HasFieldError"));
    let err = KindError::new(
        HasFieldErrorKind::Field1 { text: "hello".to_string() },
        io::Error::other("err"),
    );
    assert_eq!(
        *err.kind(),
        HasFieldErrorKind::Field1 { text: "hello".to_string() }
    );
}
