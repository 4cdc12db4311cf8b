//! The attribute mini-language: a comma-separated sequence of `key = value`
//! pairs, where a value is a string literal (`"..."`) or, for `source_fn`,
//! the literal `true` or `false`. Inside a string literal a backslash
//! escapes the character after it, so `\"` does not close the literal; the
//! content is kept exactly as written, escape sequences included, and is
//! later spliced into the emitted text unchanged. Pairs are read left to
//! right, a later pair for the same key overwrites the earlier one, and a
//! trailing comma is allowed. A key outside the closed key set is a hard
//! failure.
//!
//! `source` values must re-parse as a type and visibility values as a
//! visibility specifier; that verdict comes from the nested re-parse
//! facility (see `reparse`).

use vstd::prelude::*;
use crate::attrs::{AttrsView, KindErrorAttrs, attrs_init};
use crate::diag::{Diag, DiagView};
use crate::reparse::{is_type_text, is_vis_text, type_parses, vis_parses};
use crate::text::{range_is, range_to_string};

verus! {

pub open spec fn is_ws(c: char) -> bool {
    c == ' ' || c == '\t' || c == '\n' || c == '\r'
}

pub open spec fn is_ident_start(c: char) -> bool {
    c == '_' || ('a' <= c && c <= 'z') || ('A' <= c && c <= 'Z')
}

pub open spec fn is_ident_cont(c: char) -> bool {
    is_ident_start(c) || ('0' <= c && c <= '9')
}

/// The first index at or after `i` holding a non-whitespace character.
pub open spec fn skip_ws_spec(s: Seq<char>, i: int) -> int
    decreases s.len() - i,
{
    if i < s.len() && is_ws(s[i]) {
        skip_ws_spec(s, i + 1)
    } else {
        i
    }
}

/// The first index at or after `i` holding a non-identifier character.
pub open spec fn ident_end_spec(s: Seq<char>, i: int) -> int
    decreases s.len() - i,
{
    if i < s.len() && is_ident_cont(s[i]) {
        ident_end_spec(s, i + 1)
    } else {
        i
    }
}

/// The first index at or after `i` holding `stop`, or the end of `s`.
pub open spec fn scan_until_spec(s: Seq<char>, i: int, stop: char) -> int
    decreases s.len() - i,
{
    if i < s.len() && s[i] != stop {
        scan_until_spec(s, i + 1, stop)
    } else {
        i
    }
}

pub proof fn lemma_skip_ws_bounds(s: Seq<char>, i: int)
    ensures
        i <= skip_ws_spec(s, i),
        i <= s.len() ==> skip_ws_spec(s, i) <= s.len(),
    decreases s.len() - i,
{
    if i < s.len() && is_ws(s[i]) {
        lemma_skip_ws_bounds(s, i + 1);
    }
}

pub proof fn lemma_ident_end_bounds(s: Seq<char>, i: int)
    ensures
        i <= ident_end_spec(s, i),
        i <= s.len() ==> ident_end_spec(s, i) <= s.len(),
    decreases s.len() - i,
{
    if i < s.len() && is_ident_cont(s[i]) {
        lemma_ident_end_bounds(s, i + 1);
    }
}

pub proof fn lemma_scan_until_bounds(s: Seq<char>, i: int, stop: char)
    ensures
        i <= scan_until_spec(s, i, stop),
        i <= s.len() ==> scan_until_spec(s, i, stop) <= s.len(),
    decreases s.len() - i,
{
    if i < s.len() && s[i] != stop {
        lemma_scan_until_bounds(s, i + 1, stop);
    }
}

/// The scan stops exactly at the first occurrence of `stop`.
pub proof fn lemma_scan_until_exact(s: Seq<char>, i: int, m: int, stop: char)
    requires
        0 <= i <= m < s.len(),
        forall|j: int| i <= j < m ==> s[j] != stop,
        s[m] == stop,
    ensures
        scan_until_spec(s, i, stop) == m,
    decreases m - i,
{
    if i < m {
        lemma_scan_until_exact(s, i + 1, m, stop);
    }
}

/// The index of the unescaped closing quote at or after `i`: a backslash
/// escapes the character after it. `s.len()` when the literal never closes.
pub open spec fn lit_end_spec(s: Seq<char>, i: int) -> int
    decreases s.len() - i,
{
    if i >= s.len() {
        i
    } else if s[i] == '"' {
        i
    } else if s[i] == '\\' {
        if i + 2 <= s.len() {
            lit_end_spec(s, i + 2)
        } else {
            s.len() as int
        }
    } else {
        lit_end_spec(s, i + 1)
    }
}

pub proof fn lemma_lit_end_bounds(s: Seq<char>, i: int)
    ensures
        i <= lit_end_spec(s, i),
        i <= s.len() ==> lit_end_spec(s, i) <= s.len(),
    decreases s.len() - i,
{
    if i < s.len() && s[i] != '"' {
        if s[i] == '\\' {
            if i + 2 <= s.len() {
                lemma_lit_end_bounds(s, i + 2);
            }
        } else {
            lemma_lit_end_bounds(s, i + 1);
        }
    }
}

/// A non-empty identifier: a start character followed by identifier
/// characters.
pub open spec fn is_ident_seq(s: Seq<char>) -> bool {
    s.len() > 0 && is_ident_start(s[0]) && (forall|i: int|
        1 <= i < s.len() ==> is_ident_cont(s[i]))
}

/// Whether a string is a well-formed identifier.
pub fn is_ident_text(s: &str) -> (b: bool)
    ensures
        b == is_ident_seq(s@),
{
    let v = crate::text::to_chars(s);
    let n = v.len();
    if n == 0 {
        return false;
    }
    if !is_ident_start_c(v[0]) {
        return false;
    }
    let mut i: usize = 1;
    while i < n
        invariant
            1 <= i <= n,
            n == v@.len(),
            v@ == s@,
            is_ident_start(s@[0]),
            forall|j: int| 1 <= j < i ==> is_ident_cont(s@[j]),
        decreases n - i,
    {
        if !is_ident_cont_c(v[i]) {
            return false;
        }
        i = i + 1;
    }
    true
}

/// The keys whose value is a string literal.
pub open spec fn is_string_key(key: Seq<char>) -> bool {
    key == "source"@ || key == "new_vis"@ || key == "name"@ || key == "type_vis"@ || key
        == "kind_fn_vis"@ || key == "origin_fn_vis"@ || key == "display"@
}

/// Record a string value under its key, re-parsing type and visibility
/// values through the nested parser's verdict.
pub open spec fn set_key(acc: AttrsView, key: Seq<char>, content: Seq<char>) -> Result<
    AttrsView,
    DiagView,
> {
    if key == "source"@ {
        if type_parses(content) {
            Ok(AttrsView { source: Some(content), ..acc })
        } else {
            Err(DiagView::InvalidType(content))
        }
    } else if key == "new_vis"@ {
        if vis_parses(content) {
            Ok(AttrsView { new_vis: Some(content), ..acc })
        } else {
            Err(DiagView::InvalidVisibility(content))
        }
    } else if key == "name"@ {
        Ok(AttrsView { name: Some(content), ..acc })
    } else if key == "type_vis"@ {
        if vis_parses(content) {
            Ok(AttrsView { type_vis: Some(content), ..acc })
        } else {
            Err(DiagView::InvalidVisibility(content))
        }
    } else if key == "kind_fn_vis"@ {
        if vis_parses(content) {
            Ok(AttrsView { kind_fn_vis: Some(content), ..acc })
        } else {
            Err(DiagView::InvalidVisibility(content))
        }
    } else if key == "origin_fn_vis"@ {
        if vis_parses(content) {
            Ok(AttrsView { origin_fn_vis: Some(content), ..acc })
        } else {
            Err(DiagView::InvalidVisibility(content))
        }
    } else {
        Ok(AttrsView { display: Some(content), ..acc })
    }
}

/// Parse the `true`/`false` value of `source_fn` at index `i`.
pub open spec fn parse_bool_value(s: Seq<char>, i: int, acc: AttrsView) -> Result<
    (AttrsView, int),
    DiagView,
> {
    if !(i < s.len() && is_ident_start(s[i])) {
        Err(DiagView::ExpectedBool)
    } else {
        let e = ident_end_spec(s, i + 1);
        let w = s.subrange(i, e);
        if w == "true"@ {
            Ok((AttrsView { source_fn: true, ..acc }, e))
        } else if w == "false"@ {
            Ok((AttrsView { source_fn: false, ..acc }, e))
        } else {
            Err(DiagView::ExpectedBool)
        }
    }
}

/// Parse the string-literal value of `key` at index `i`.
pub open spec fn parse_string_value(s: Seq<char>, i: int, acc: AttrsView, key: Seq<char>) -> Result<
    (AttrsView, int),
    DiagView,
> {
    if !(i < s.len() && s[i] == '"') {
        Err(DiagView::ExpectedString)
    } else {
        let e = lit_end_spec(s, i + 1);
        if e >= s.len() {
            Err(DiagView::UnterminatedString)
        } else {
            let content = s.subrange(i + 1, e);
            match set_key(acc, key, content) {
                Ok(a2) => Ok((a2, e + 1)),
                Err(d) => Err(d),
            }
        }
    }
}

/// Parse one `key = value` pair starting at the non-whitespace index `i`;
/// on success the new record and the index just past the value.
pub open spec fn parse_pair(s: Seq<char>, i: int, acc: AttrsView) -> Result<
    (AttrsView, int),
    DiagView,
> {
    if !(i < s.len() && is_ident_start(s[i])) {
        Err(DiagView::ExpectedKey)
    } else {
        let k = ident_end_spec(s, i + 1);
        let key = s.subrange(i, k);
        let j2 = skip_ws_spec(s, k);
        if !(j2 < s.len() && s[j2] == '=') {
            Err(DiagView::ExpectedEq)
        } else {
            let j3 = skip_ws_spec(s, j2 + 1);
            if key == "source_fn"@ {
                parse_bool_value(s, j3, acc)
            } else if is_string_key(key) {
                parse_string_value(s, j3, acc, key)
            } else {
                Err(DiagView::UnknownKey(key))
            }
        }
    }
}

pub proof fn lemma_parse_pair_bounds(s: Seq<char>, i: int, acc: AttrsView)
    ensures
        parse_pair(s, i, acc) matches Ok(p) ==> i < p.1 && (i <= s.len() ==> p.1 <= s.len()),
{
    let k = ident_end_spec(s, i + 1);
    lemma_ident_end_bounds(s, i + 1);
    let j2 = skip_ws_spec(s, k);
    lemma_skip_ws_bounds(s, k);
    let j3 = skip_ws_spec(s, j2 + 1);
    lemma_skip_ws_bounds(s, j2 + 1);
    lemma_ident_end_bounds(s, j3 + 1);
    lemma_lit_end_bounds(s, j3 + 1);
}

/// Parse the whole attribute body from index `i` on, with `acc` the pairs
/// read so far. An empty rest leaves `acc` as it stands.
pub open spec fn parse_pairs(s: Seq<char>, i: int, acc: AttrsView) -> Result<AttrsView, DiagView>
    decreases s.len() - i,
    via parse_pairs_dec
{
    let j = skip_ws_spec(s, i);
    if j >= s.len() {
        Ok(acc)
    } else {
        match parse_pair(s, j, acc) {
            Err(d) => Err(d),
            Ok(p) => {
                let j4 = skip_ws_spec(s, p.1);
                if j4 >= s.len() {
                    Ok(p.0)
                } else if s[j4] != ',' {
                    Err(DiagView::ExpectedComma)
                } else {
                    parse_pairs(s, j4 + 1, p.0)
                }
            },
        }
    }
}

#[via_fn]
proof fn parse_pairs_dec(s: Seq<char>, i: int, acc: AttrsView) {
    lemma_skip_ws_bounds(s, i);
    let j = skip_ws_spec(s, i);
    if j < s.len() {
        lemma_parse_pair_bounds(s, j, acc);
        match parse_pair(s, j, acc) {
            Ok(p) => {
                lemma_skip_ws_bounds(s, p.1);
            },
            Err(_) => {},
        }
    }
}

/// The result of parsing the complete attribute body `s`.
pub open spec fn parse_body_spec(s: Seq<char>) -> Result<AttrsView, DiagView> {
    parse_pairs(s, 0, attrs_init())
}

/// An unrecognized key fails the whole parse with the diagnostic naming
/// that key, wherever in the body the pair stands and whatever was read
/// before it: no configuration record is produced, and the diagnostic's
/// message names the key.
pub proof fn lemma_unknown_key_fails(s: Seq<char>, i: int, acc: AttrsView)
    requires
        ({
            let j = skip_ws_spec(s, i);
            let k = ident_end_spec(s, j + 1);
            let j2 = skip_ws_spec(s, k);
            &&& 0 <= j < s.len()
            &&& is_ident_start(s[j])
            &&& !is_string_key(s.subrange(j, k))
            &&& s.subrange(j, k) != "source_fn"@
            &&& j2 < s.len()
            &&& s[j2] == '='
        }),
    ensures
        ({
            let j = skip_ws_spec(s, i);
            let key = s.subrange(j, ident_end_spec(s, j + 1));
            &&& parse_pairs(s, i, acc) == Err::<AttrsView, DiagView>(DiagView::UnknownKey(key))
            &&& crate::diag::message_spec(DiagView::UnknownKey(key)) == "unknown attribute key: "@
                + key
        }),
{
    let j = skip_ws_spec(s, i);
    let k = ident_end_spec(s, j + 1);
    let key = s.subrange(j, k);
    assert(parse_pair(s, j, acc) == Err::<(AttrsView, int), DiagView>(DiagView::UnknownKey(key)));
    assert(parse_pairs(s, i, acc) == Err::<AttrsView, DiagView>(DiagView::UnknownKey(key)));
}

fn is_ws_c(c: char) -> (b: bool)
    ensures
        b == is_ws(c),
{
    c == ' ' || c == '\t' || c == '\n' || c == '\r'
}

fn is_ident_start_c(c: char) -> (b: bool)
    ensures
        b == is_ident_start(c),
{
    c == '_' || ('a' <= c && c <= 'z') || ('A' <= c && c <= 'Z')
}

fn is_ident_cont_c(c: char) -> (b: bool)
    ensures
        b == is_ident_cont(c),
{
    is_ident_start_c(c) || ('0' <= c && c <= '9')
}

fn skip_ws(s: &Vec<char>, i: usize) -> (r: usize)
    requires
        i <= s@.len(),
    ensures
        r as int == skip_ws_spec(s@, i as int),
        i <= r <= s@.len(),
    decreases s@.len() - i,
{
    if i < s.len() && is_ws_c(s[i]) {
        skip_ws(s, i + 1)
    } else {
        i
    }
}

fn ident_end(s: &Vec<char>, i: usize) -> (r: usize)
    requires
        i <= s@.len(),
    ensures
        r as int == ident_end_spec(s@, i as int),
        i <= r <= s@.len(),
    decreases s@.len() - i,
{
    if i < s.len() && is_ident_cont_c(s[i]) {
        ident_end(s, i + 1)
    } else {
        i
    }
}

fn lit_end(s: &Vec<char>, i: usize) -> (r: usize)
    requires
        i <= s@.len(),
    ensures
        r as int == lit_end_spec(s@, i as int),
        i <= r <= s@.len(),
    decreases s@.len() - i,
{
    if i >= s.len() {
        i
    } else if s[i] == '"' {
        i
    } else if s[i] == '\\' {
        if s.len() - i >= 2 {
            lit_end(s, i + 2)
        } else {
            s.len()
        }
    } else {
        lit_end(s, i + 1)
    }
}

pub(crate) fn scan_until(s: &Vec<char>, i: usize, stop: char) -> (r: usize)
    requires
        i <= s@.len(),
    ensures
        r as int == scan_until_spec(s@, i as int, stop),
        i <= r <= s@.len(),
    decreases s@.len() - i,
{
    if i < s.len() && s[i] != stop {
        scan_until(s, i + 1, stop)
    } else {
        i
    }
}

/// Parse one `key = value` pair starting at index `i`.
fn parse_pair_at(s: &Vec<char>, i: usize, acc: KindErrorAttrs) -> (r: Result<
    (KindErrorAttrs, usize),
    Diag,
>)
    requires
        i < s@.len(),
    ensures
        match r {
            Ok(p) => parse_pair(s@, i as int, acc@) == Ok::<(AttrsView, int), DiagView>(
                (p.0@, p.1 as int),
            ) && i < p.1 <= s@.len(),
            Err(d) => parse_pair(s@, i as int, acc@) == Err::<(AttrsView, int), DiagView>(d@),
        },
{
    proof {
        lemma_parse_pair_bounds(s@, i as int, acc@);
    }
    let n = s.len();
    assert(i < n);
    if !is_ident_start_c(s[i]) {
        return Err(Diag::ExpectedKey);
    }
    let k = ident_end(s, i + 1);
    let j2 = skip_ws(s, k);
    if !(j2 < s.len() && s[j2] == '=') {
        return Err(Diag::ExpectedEq);
    }
    let j3 = skip_ws(s, j2 + 1);
    let ghost key = s@.subrange(i as int, k as int);
    if range_is(s, i, k, "source_fn") {
        if !(j3 < s.len() && is_ident_start_c(s[j3])) {
            return Err(Diag::ExpectedBool);
        }
        let e = ident_end(s, j3 + 1);
        if range_is(s, j3, e, "true") {
            let mut acc = acc;
            acc.source_fn = true;
            return Ok((acc, e));
        }
        if range_is(s, j3, e, "false") {
            let mut acc = acc;
            acc.source_fn = false;
            return Ok((acc, e));
        }
        return Err(Diag::ExpectedBool);
    }
    let is_source = range_is(s, i, k, "source");
    let is_new_vis = range_is(s, i, k, "new_vis");
    let is_name = range_is(s, i, k, "name");
    let is_type_vis = range_is(s, i, k, "type_vis");
    let is_kind_fn_vis = range_is(s, i, k, "kind_fn_vis");
    let is_origin_fn_vis = range_is(s, i, k, "origin_fn_vis");
    let is_display = range_is(s, i, k, "display");
    if !(is_source || is_new_vis || is_name || is_type_vis || is_kind_fn_vis || is_origin_fn_vis
        || is_display) {
        return Err(Diag::UnknownKey(range_to_string(s, i, k)));
    }
    if !(j3 < s.len() && s[j3] == '"') {
        return Err(Diag::ExpectedString);
    }
    let e = lit_end(s, j3 + 1);
    if e >= s.len() {
        return Err(Diag::UnterminatedString);
    }
    let content = range_to_string(s, j3 + 1, e);
    let mut acc = acc;
    if is_source {
        if is_type_text(content.as_str()) {
            acc.source = Some(content);
            Ok((acc, e + 1))
        } else {
            Err(Diag::InvalidType(content))
        }
    } else if is_new_vis {
        if is_vis_text(content.as_str()) {
            acc.new_vis = Some(content);
            Ok((acc, e + 1))
        } else {
            Err(Diag::InvalidVisibility(content))
        }
    } else if is_name {
        acc.name = Some(content);
        Ok((acc, e + 1))
    } else if is_type_vis {
        if is_vis_text(content.as_str()) {
            acc.type_vis = Some(content);
            Ok((acc, e + 1))
        } else {
            Err(Diag::InvalidVisibility(content))
        }
    } else if is_kind_fn_vis {
        if is_vis_text(content.as_str()) {
            acc.kind_fn_vis = Some(content);
            Ok((acc, e + 1))
        } else {
            Err(Diag::InvalidVisibility(content))
        }
    } else if is_origin_fn_vis {
        if is_vis_text(content.as_str()) {
            acc.origin_fn_vis = Some(content);
            Ok((acc, e + 1))
        } else {
            Err(Diag::InvalidVisibility(content))
        }
    } else {
        acc.display = Some(content);
        Ok((acc, e + 1))
    }
}

/// Parse a complete attribute body into a configuration record.
pub fn parse_attr_body(s: &Vec<char>) -> (r: Result<KindErrorAttrs, Diag>)
    ensures
        match r {
            Ok(a) => parse_body_spec(s@) == Ok::<AttrsView, DiagView>(a@),
            Err(d) => parse_body_spec(s@) == Err::<AttrsView, DiagView>(d@),
        },
{
    let mut acc = KindErrorAttrs::empty();
    let mut i: usize = 0;
    loop
        invariant
            i <= s@.len(),
            parse_body_spec(s@) == parse_pairs(s@, i as int, acc@),
        decreases s@.len() - i,
    {
        let j = skip_ws(s, i);
        if j >= s.len() {
            assert(parse_pairs(s@, i as int, acc@) == Ok::<AttrsView, DiagView>(acc@));
            return Ok(acc);
        }
        let ghost acc0 = acc@;
        match parse_pair_at(s, j, acc) {
            Err(d) => {
                assert(parse_pairs(s@, i as int, acc0) == Err::<AttrsView, DiagView>(d@));
                return Err(d);
            },
            Ok((acc2, n)) => {
                let j4 = skip_ws(s, n);
                if j4 >= s.len() {
                    assert(parse_pairs(s@, i as int, acc0) == Ok::<AttrsView, DiagView>(acc2@));
                    return Ok(acc2);
                }
                if s[j4] != ',' {
                    assert(parse_pairs(s@, i as int, acc0) == Err::<AttrsView, DiagView>(
                        DiagView::ExpectedComma,
                    ));
                    return Err(Diag::ExpectedComma);
                }
                assert(parse_pairs(s@, i as int, acc0) == parse_pairs(
                    s@,
                    j4 + 1 as int,
                    acc2@,
                ));
                acc = acc2;
                i = j4 + 1;
            },
        }
    }
}

} // verus!
