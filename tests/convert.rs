use just_convert::error::{ConfigError, ErrorKind};
use just_convert::expr::{parse_custom_fn_expr, parse_map_expr};
use just_convert::overrides::FieldValue;
use just_convert::parse::{parse_params, Attr, DeclData, FieldDecl, RecordDecl};
use just_convert::shape::{detect_type_for_serviced, AdditionalType, GenericArg, TypeExpr};
use just_convert::synth::build_impl;
use just_convert::tokens::{push_toks, Delim, Tok};
use proc_macro2::{Delimiter, Spacing, TokenStream, TokenTree};

fn flatten(ts: TokenStream, out: &mut Vec<Tok>, expand_strings: bool) {
    for tt in ts {
        match tt {
            TokenTree::Group(g) => {
                let d = match g.delimiter() {
                    Delimiter::Parenthesis => Some(Delim::Paren),
                    Delimiter::Brace => Some(Delim::Brace),
                    Delimiter::Bracket => Some(Delim::Bracket),
                    Delimiter::None => None,
                };
                if let Some(d) = d {
                    out.push(Tok::Open(d));
                }
                flatten(g.stream(), out, expand_strings);
                if let Some(d) = d {
                    out.push(Tok::Close(d));
                }
            }
            TokenTree::Ident(i) => out.push(Tok::Ident(i.to_string())),
            TokenTree::Punct(p) => out.push(Tok::Punct(p.as_char(), p.spacing() == Spacing::Joint)),
            TokenTree::Literal(l) => {
                let text = l.to_string();
                let inner = if expand_strings {
                    syn::parse_str::<syn::LitStr>(&text)
                        .ok()
                        .and_then(|s| s.value().parse::<TokenStream>().ok())
                } else {
                    None
                };
                match inner {
                    Some(content) => {
                        out.push(Tok::Open(Delim::Quote));
                        flatten(content, out, false);
                        out.push(Tok::Close(Delim::Quote));
                    }
                    None => out.push(Tok::Lit(text)),
                }
            }
        }
    }
}

fn toks(src: &str, expand_strings: bool) -> Vec<Tok> {
    let mut out = Vec::new();
    flatten(src.parse().unwrap(), &mut out, expand_strings);
    out
}

fn attr(src: &str) -> Attr {
    Attr { name: "convert".to_string(), args: Some(toks(src, true)) }
}

fn type_expr(ty: &syn::Type) -> TypeExpr {
    match ty {
        syn::Type::Path(p) => {
            let seg = &p.path.segments[0];
            let args = match &seg.arguments {
                syn::PathArguments::AngleBracketed(a) => a
                    .args
                    .iter()
                    .map(|g| match g {
                        syn::GenericArgument::Type(t) => GenericArg::Type(type_expr(t)),
                        _ => GenericArg::NonType,
                    })
                    .collect(),
                _ => Vec::new(),
            };
            TypeExpr::Path { head: seg.ident.to_string(), args }
        }
        _ => TypeExpr::Other,
    }
}

fn ty(src: &str) -> TypeExpr {
    type_expr(&syn::parse_str::<syn::Type>(src).unwrap())
}

fn field(name: &str, t: &str, attrs: &[&str]) -> FieldDecl {
    FieldDecl { name: name.to_string(), ty: ty(t), attrs: attrs.iter().map(|a| attr(a)).collect() }
}

fn record(attrs: &[&str], fields: Vec<FieldDecl>) -> RecordDecl {
    RecordDecl {
        name: "A".to_string(),
        attrs: attrs.iter().map(|a| attr(a)).collect(),
        data: DeclData::Named(fields),
    }
}

fn generate(d: &RecordDecl) -> String {
    build_impl(d).unwrap()
}

fn error_of(d: &RecordDecl) -> ConfigError {
    match build_impl(d) {
        Ok(s) => panic!("expected an error, got {s}"),
        Err(e) => e,
    }
}

fn rewritten(field: &str, src: &str) -> String {
    let out = parse_custom_fn_expr(&field.to_string(), &toks(src, false));
    let mut text = String::new();
    push_toks(&mut text, &out);
    text
}

const INTO_B: &str =
    "impl std::convert::Into<B> for A { fn into(self) -> B { let this = self; #[allow(clippy::needless_update)] B { ";
const FROM_B: &str =
    "impl std::convert::From<B> for A { fn from(this: B) -> Self { #[allow(clippy::needless_update)] A { ";
const END: &str = "} } } ";

// ---- shape classification ----

#[test]
fn shape_plain() {
    assert_eq!(detect_type_for_serviced(&ty("i64"), 0), AdditionalType::Plain);
    assert_eq!(detect_type_for_serviced(&ty("&str"), 0), AdditionalType::Plain);
}

#[test]
fn shape_option_and_vec() {
    assert_eq!(detect_type_for_serviced(&ty("Option<String>"), 0), AdditionalType::Optional);
    assert_eq!(detect_type_for_serviced(&ty("Vec<u8>"), 0), AdditionalType::Collection);
}

#[test]
fn shape_nested_two_levels() {
    assert_eq!(detect_type_for_serviced(&ty("Option<Vec<u8>>"), 0), AdditionalType::OptionalOfCollection);
    assert_eq!(detect_type_for_serviced(&ty("Vec<Option<u8>>"), 0), AdditionalType::CollectionOfOptional);
}

#[test]
fn shape_nesting_looks_two_levels_deep() {
    assert_eq!(detect_type_for_serviced(&ty("Option<Option<u8>>"), 0), AdditionalType::Plain);
    assert_eq!(detect_type_for_serviced(&ty("Vec<Vec<u8>>"), 0), AdditionalType::Plain);
    assert_eq!(detect_type_for_serviced(&ty("Option<Vec<Option<u8>>>"), 0), AdditionalType::OptionalOfCollection);
    assert_eq!(detect_type_for_serviced(&ty("Vec<Option<Vec<u8>>>"), 0), AdditionalType::CollectionOfOptional);
}

#[test]
fn shape_is_syntactic() {
    assert_eq!(detect_type_for_serviced(&ty("Maybe<u8>"), 0), AdditionalType::Plain);
    assert_eq!(detect_type_for_serviced(&ty("std::option::Option<u8>"), 0), AdditionalType::Plain);
    assert_eq!(detect_type_for_serviced(&ty("Option"), 0), AdditionalType::Plain);
    assert_eq!(detect_type_for_serviced(&ty("Vec<u8, A>"), 0), AdditionalType::Plain);
}

#[test]
fn shape_depth_one_is_outer_only() {
    assert_eq!(detect_type_for_serviced(&ty("Option<Vec<u8>>"), 1), AdditionalType::Optional);
    assert_eq!(detect_type_for_serviced(&ty("Vec<Option<u8>>"), 1), AdditionalType::Collection);
}

#[test]
fn shape_predicates() {
    assert!(AdditionalType::Optional.is_option());
    assert!(!AdditionalType::Plain.is_option());
    assert!(AdditionalType::OptionalOfCollection.is_option_vec());
    assert!(AdditionalType::Collection.is_vec());
    assert!(AdditionalType::CollectionOfOptional.is_vec_option());
    assert!(!AdditionalType::Collection.is_vec_option());
}

// ---- layered overrides ----

#[test]
fn override_precedence() {
    let mut v: FieldValue<String> = FieldValue::new();
    let b = "B".to_string();
    let c = "C".to_string();
    assert_eq!(v.get_from(&b), None);
    v.set_common("common".to_string());
    assert_eq!(v.get_from(&b).unwrap(), "common");
    v.set_from(None, "dir".to_string());
    assert_eq!(v.get_from(&b).unwrap(), "dir");
    assert_eq!(v.get_into(&b).unwrap(), "common");
    v.set_from(Some(b.clone()), "target".to_string());
    assert_eq!(v.get_from(&b).unwrap(), "target");
    assert_eq!(v.get_from(&c).unwrap(), "dir");
}

#[test]
fn override_precedence_regardless_of_order() {
    let mut v: FieldValue<bool> = FieldValue::new();
    let b = "B".to_string();
    v.set_into(Some(b.clone()), false);
    v.set_into(None, true);
    v.set_common(true);
    assert_eq!(v.get_into(&b), Some(&false));
    assert_eq!(v.get_into(&"C".to_string()), Some(&true));
}

#[test]
fn override_later_write_replaces() {
    let mut v: FieldValue<String> = FieldValue::new();
    let b = "B".to_string();
    v.set_into(Some(b.clone()), "x".to_string());
    v.set_into(Some(b.clone()), "y".to_string());
    assert_eq!(v.get_into(&b).unwrap(), "y");
}

// ---- placeholder rewriting ----

#[test]
fn placeholder_method_call() {
    assert_eq!(rewritten("num", ".to_string()"), "this . num . to_string ( ) ");
}

#[test]
fn placeholder_cast() {
    assert_eq!(rewritten("num", ". as i64"), "this . num as i64 ");
}

#[test]
fn placeholder_alone() {
    assert_eq!(rewritten("num", "."), "this . num ");
}

#[test]
fn placeholder_in_groups() {
    assert_eq!(rewritten("id", "to_str_id(.)"), "to_str_id ( this . id ) ");
    assert_eq!(
        rewritten("param", "if . { Some(42) } else { None }"),
        "if this . param { Some ( 42 ) } else { None } "
    );
    assert_eq!(rewritten("v", "[.]"), "[ this . v ] ");
    // a `.` followed by a separator is no placeholder
    assert_eq!(rewritten("v", "[., 1]"), "[ ., 1 ] ");
}

#[test]
fn placeholder_after_operator() {
    assert_eq!(rewritten("n", ".abs() + 1"), "this . n . abs ( ) + 1 ");
    // a `.` followed by an operator is no placeholder
    assert_eq!(rewritten("n", ". + 1"), ". + 1 ");
    assert_eq!(rewritten("n", "1 + .len()"), "1 + this . n . len ( ) ");
}

#[test]
fn placeholder_before_keyword_is_kept() {
    assert_eq!(rewritten("n", ".if"), ". if ");
    assert_eq!(rewritten("n", ".self"), ". self ");
}

#[test]
fn placeholder_out_of_position_is_kept() {
    assert_eq!(rewritten("n", "x.clone()"), "x . clone ( ) ");
    assert_eq!(rewritten("n", "f() .x"), "f ( ) . x ");
}

#[test]
fn map_expression_checked_by_parser() {
    let f = "num".to_string();
    assert_eq!(parse_map_expr(&f, &toks(".to_string()", false)).unwrap(), "this . num . to_string ( ) ");
    assert_eq!(parse_map_expr(&f, &toks("+", false)), None);
}

// ---- attribute parsing ----

#[test]
fn parse_targets() {
    let d = record(&["from(B), into(m::C, default)", "from_into(D, default, wrap_option)"], vec![]);
    let p = parse_params(&d).unwrap();
    let from: Vec<(&str, bool, bool)> = p.from.iter().map(|t| (t.path.as_str(), t.default, t.wrap_option)).collect();
    let into: Vec<(&str, bool, bool)> = p.into.iter().map(|t| (t.path.as_str(), t.default, t.wrap_option)).collect();
    assert_eq!(from, vec![("B", false, false), ("D", true, true)]);
    assert_eq!(into, vec![("m::C", true, false), ("D", true, true)]);
}

#[test]
fn parse_field_overrides() {
    let d = record(
        &["from_into(B)"],
        vec![field("id", "i64", &["rename(from = user_id, into(B, bid))", "skip(into(C)), wrap"])],
    );
    let p = parse_params(&d).unwrap();
    assert_eq!(p.fields.len(), 1);
    let fp = &p.fields[0].1;
    let b = "B".to_string();
    let c = "C".to_string();
    assert_eq!(fp.rename.get_from(&b).unwrap(), "user_id");
    assert_eq!(fp.rename.get_into(&b).unwrap(), "bid");
    assert_eq!(fp.rename.get_into(&c), None);
    assert_eq!(fp.skip.get_into(&c), Some(&true));
    assert_eq!(fp.skip.get_into(&b), None);
    assert_eq!(fp.wrap.get_from(&b), Some(&true));
}

#[test]
fn parse_flag_from_into_targets_both_directions() {
    let d = record(&[], vec![field("e", "i64", &["skip(from_into(other::Mouse))"])]);
    let p = parse_params(&d).unwrap();
    let fp = &p.fields[0].1;
    let mouse = "other::Mouse".to_string();
    let cat = "Cat".to_string();
    assert_eq!(fp.skip.get_from(&mouse), Some(&true));
    assert_eq!(fp.skip.get_into(&mouse), Some(&true));
    assert_eq!(fp.skip.get_into(&cat), None);
}

#[test]
fn parse_is_idempotent() {
    let d = record(&["from_into(B)"], vec![field("id", "i64", &["rename = bid", "map(from(B, \". as i64\"))"])]);
    let a = parse_params(&d).unwrap();
    let b = parse_params(&d).unwrap();
    assert_eq!(format!("{a:?}"), format!("{b:?}"));
    assert_eq!(generate(&d), generate(&d));
}

#[test]
fn error_unrecognized_convert() {
    let e = error_of(&record(&["bogus(B)"], vec![]));
    assert_eq!((e.kind, e.field, e.attr, e.at), (ErrorKind::UnrecognizedConvert, None, Some(0), 0));
}

#[test]
fn error_unknown_value() {
    let e = error_of(&record(&["from(B)", "into(B, other)"], vec![]));
    assert_eq!((e.kind, e.field, e.attr, e.at), (ErrorKind::UnknownValue, None, Some(1), 0));
}

#[test]
fn error_unknown_field() {
    let e = error_of(&record(&[], vec![field("x", "i64", &[]), field("y", "i64", &["bogus"])]));
    assert_eq!((e.kind, e.field, e.attr, e.at), (ErrorKind::UnknownField, Some(1), Some(0), 0));
}

#[test]
fn error_flag_with_value() {
    let e = error_of(&record(&[], vec![field("x", "i64", &["wrap = y"])]));
    assert_eq!((e.kind, e.field, e.at), (ErrorKind::ExpectedComma, Some(0), 1));
}

#[test]
fn error_value_in_flag_position() {
    let e = error_of(&record(&[], vec![field("x", "i64", &["rename"])]));
    assert_eq!((e.kind, e.field, e.at), (ErrorKind::ExpectedEq, Some(0), 1));
}

#[test]
fn error_malformed_path() {
    let e = error_of(&record(&["from(1)"], vec![]));
    assert_eq!((e.kind, e.at), (ErrorKind::ExpectedPath, 2));
}

#[test]
fn error_not_a_list() {
    let mut d = record(&[], vec![]);
    d.attrs.push(Attr { name: "convert".to_string(), args: None });
    let e = error_of(&d);
    assert_eq!((e.kind, e.field, e.attr), (ErrorKind::NotList, None, Some(0)));
}

#[test]
fn other_attributes_are_ignored() {
    let mut d = record(&["into(B)"], vec![]);
    d.attrs.insert(0, Attr { name: "serde".to_string(), args: None });
    assert_eq!(generate(&d), format!("{INTO_B}{END}"));
}

#[test]
fn error_unsupported_items() {
    for (data, kind) in [
        (DeclData::Unnamed, ErrorKind::UnnamedStruct),
        (DeclData::Unit, ErrorKind::UnitStruct),
        (DeclData::Enum, ErrorKind::EnumInput),
        (DeclData::Union, ErrorKind::UnionInput),
    ] {
        let d = RecordDecl { name: "A".to_string(), attrs: vec![attr("from(B)")], data };
        let e = error_of(&d);
        assert_eq!((e.kind, e.field, e.attr), (kind, None, None));
    }
    assert_eq!(ErrorKind::EnumInput.message(), "enum is not currently supported");
}

#[test]
fn error_map_not_a_string() {
    let e = error_of(&record(&["into(B)"], vec![field("x", "i64", &["map = 5"])]));
    assert_eq!((e.kind, e.field, e.at), (ErrorKind::BadExpression, Some(0), 2));
}

#[test]
fn error_map_not_an_expression() {
    let d = record(&["into(B)"], vec![field("x", "i64", &[]), field("y", "i64", &["map = \"+\""])]);
    let e = error_of(&d);
    assert_eq!((e.kind, e.field, e.attr, e.at), (ErrorKind::BadExpression, Some(1), Some(0), 2));
}

// ---- synthesis ----

#[test]
fn shape_default_rules() {
    let d = record(
        &["into(B)"],
        vec![
            field("a", "i64", &[]),
            field("b", "Option<X>", &[]),
            field("c", "Option<Vec<X>>", &[]),
            field("d", "Vec<X>", &[]),
            field("e", "Vec<Option<X>>", &[]),
        ],
    );
    let expected = format!(
        "{INTO_B}a: this.a.into(), b: this.b.map(Into::into), c: this.c.map(|x| x.into_iter().map(Into::into).collect()), d: this.d.into_iter().map(Into::into).collect(), e: this.e.into_iter().map(|x| x.map(Into::into)).collect(), {END}"
    );
    assert_eq!(generate(&d), expected);
}

#[test]
fn scenario_rename_map_unwrap() {
    let d = record(
        &["into(B)"],
        vec![
            field("id", "i64", &["rename = bid"]),
            field("num", "i64", &["map = \".to_string()\""]),
            field("name", "Option<String>", &["unwrap"]),
        ],
    );
    let expected = format!(
        "{INTO_B}bid: this.id.into(), num: this . num . to_string ( ) , name: this.name.unwrap_or_default(), {END}"
    );
    let text = generate(&d);
    assert_eq!(text, expected);
    assert!(syn::parse_str::<syn::File>(&text).is_ok());
}

#[test]
fn scenario_wrap_and_unwrap() {
    let d = record(&["from_into(B)"], vec![field("age", "Option<i64>", &["wrap, unwrap(into)"])]);
    let expected = format!(
        "{FROM_B}age: Some(this.age), {END}{INTO_B}age: this.age.unwrap_or_default(), {END}"
    );
    assert_eq!(generate(&d), expected);
}

#[test]
fn scenario_wrap_option() {
    let d = record(
        &["from(B, wrap_option)"],
        vec![field("id", "Option<i64>", &[]), field("abc", "Option<i64>", &[]), field("def", "Option<i64>", &[])],
    );
    let expected = format!("{FROM_B}id: Some(this.id), abc: Some(this.abc), def: Some(this.def), {END}");
    assert_eq!(generate(&d), expected);
}

#[test]
fn scenario_skip_with_default_tail() {
    let d = record(&["from(B, default)"], vec![field("x", "i64", &["skip"]), field("y", "i64", &[])]);
    assert_eq!(generate(&d), format!("{FROM_B}y: this.y.into(), ..Default::default() {END}"));
}

#[test]
fn scenario_skip_without_default_tail() {
    let d = record(&["from(B)"], vec![field("x", "i64", &["skip"]), field("y", "i64", &[])]);
    assert_eq!(generate(&d), format!("{FROM_B}x: Default::default(), y: this.y.into(), {END}"));
}

#[test]
fn round_trip_names_match() {
    let d = record(&["from_into(B)"], vec![field("id", "Vec<u8>", &["rename = key"])]);
    let expected = format!(
        "{FROM_B}id: this.key.into_iter().map(Into::into).collect(), {END}{INTO_B}key: this.id.into_iter().map(Into::into).collect(), {END}"
    );
    assert_eq!(generate(&d), expected);
}

#[test]
fn rename_per_target() {
    let d = record(
        &["from(B)", "from_into(C)"],
        vec![field("id", "String", &["rename(from_into(C, c_id))", "rename(from = user_id)"])],
    );
    let expected = "impl std::convert::From<B> for A { fn from(this: B) -> Self { #[allow(clippy::needless_update)] A { id: this.user_id.into(), } } } \
impl std::convert::From<C> for A { fn from(this: C) -> Self { #[allow(clippy::needless_update)] A { id: this.c_id.into(), } } } \
impl std::convert::Into<C> for A { fn into(self) -> C { let this = self; #[allow(clippy::needless_update)] C { c_id: this.id.into(), } } } ";
    assert_eq!(generate(&d), expected);
}

#[test]
fn map_per_target_and_direction() {
    let d = record(
        &["from_into(Cat, default)"],
        vec![field("age", "i64", &["map(from(Cat, \". as i64\"), into(Cat, \". as u64\"))"])],
    );
    let expected = "impl std::convert::From<Cat> for A { fn from(this: Cat) -> Self { #[allow(clippy::needless_update)] A { age: this . age as i64 , ..Default::default() } } } \
impl std::convert::Into<Cat> for A { fn into(self) -> Cat { let this = self; #[allow(clippy::needless_update)] Cat { age: this . age as u64 , ..Default::default() } } } ";
    let text = generate(&d);
    assert_eq!(text, expected);
    assert!(syn::parse_str::<syn::File>(&text).is_ok());
}

#[test]
fn skip_into_with_default_tail_omits() {
    let d = record(&["into(B, default)"], vec![field("x", "i64", &["skip(into)"])]);
    assert_eq!(generate(&d), format!("{INTO_B}..Default::default() {END}"));
}

#[test]
fn no_targets_emit_nothing() {
    let d = record(&[], vec![field("x", "i64", &[])]);
    assert_eq!(generate(&d), "");
}

#[test]
fn error_map_location_in_later_attribute() {
    let d = record(&["into(B)"], vec![field("x", "i64", &["skip(from)", "rename = y, map(into(B, \"*\"))"])]);
    let e = error_of(&d);
    assert_eq!((e.kind, e.field, e.attr, e.at), (ErrorKind::BadExpression, Some(0), Some(1), 10));
}

#[test]
fn error_message_text() {
    assert_eq!(ErrorKind::UnknownField.message(), "unknown field");
    assert_eq!(ErrorKind::UnrecognizedConvert.message(), "unrecognized convert");
}

#[test]
fn rename_to_keyword_refused() {
    let e = error_of(&record(&[], vec![field("x", "i64", &["rename = fn"])]));
    assert_eq!((e.kind, e.at), (ErrorKind::ExpectedIdent, 2));
}

#[test]
fn paths_with_leading_colons_and_generics() {
    let d = record(&["from(Wrapper<Vec<u8>>)", "into(::m::B, default)"], vec![field("x", "i64", &["rename(from(Wrapper<Vec<u8>>, y))"])]);
    let expected = "impl std::convert::From<Wrapper< Vec < u8 >> > for A { fn from(this: Wrapper< Vec < u8 >> ) -> Self { #[allow(clippy::needless_update)] A { x: this.y.into(), } } } \
impl std::convert::Into<::m::B> for A { fn into(self) -> ::m::B { let this = self; #[allow(clippy::needless_update)] ::m::B { x: this.x.into(), ..Default::default() } } } ";
    let text = generate(&d);
    assert_eq!(text, expected);
    assert!(syn::parse_str::<syn::File>(&text).is_ok());
}

#[test]
fn precedence_in_routines() {
    let d = record(
        &["from(T)", "from(U)"],
        vec![field("f", "i64", &["rename(from(T, t))", "rename(from = d)", "rename = c"])],
    );
    let expected = "impl std::convert::From<T> for A { fn from(this: T) -> Self { #[allow(clippy::needless_update)] A { f: this.t.into(), } } } \
impl std::convert::From<U> for A { fn from(this: U) -> Self { #[allow(clippy::needless_update)] A { f: this.d.into(), } } } ";
    assert_eq!(generate(&d), expected);
    let d = record(&["from(U)"], vec![field("f", "i64", &["rename = c", "rename(from(T, t))"])]);
    assert!(generate(&d).contains("f: this.c.into(), "));
}
