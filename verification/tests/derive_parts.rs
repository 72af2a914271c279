use typesize::derive::attrs::{
    check_repr_packed, get_field_config, parse_field_config, parse_path, repr_args_packed,
    AttrMeta, AttrToken, AttributeModel, DeriveError, FieldConfig,
};
use typesize::derive::gen::{
    for_each_field, gen_call_with_arg, gen_struct, gen_unnamed_ident, join_tokens,
    try_join_tokens, FieldModel, FieldStyle, FieldsModel, PassMode, TermKind, VariantModel,
};
use typesize::derive::text::{concat_text, decimal_text, join_text};
use typesize::derive::variants::{gen_enum, gen_match_arm, gen_unnamed_idents, get_named_idents};

fn ident(s: &str) -> AttrToken {
    AttrToken::Ident(s.to_string())
}

fn list(name: &str, tokens: Vec<AttrToken>) -> AttributeModel {
    AttributeModel { ident: Some(name.to_string()), meta: AttrMeta::List(tokens) }
}

fn config_text(r: Result<FieldConfig, DeriveError>) -> Result<String, DeriveError> {
    r.map(|c| match c {
        FieldConfig::Default => "default".to_string(),
        FieldConfig::Skip => "skip".to_string(),
        FieldConfig::With(p) => format!("with {}", p),
    })
}

#[test]
fn repr_attributes_decide_packing() {
    assert_eq!(repr_args_packed(&[ident("packed")]), Some(true));
    assert_eq!(repr_args_packed(&[ident("C")]), Some(false));
    assert_eq!(
        repr_args_packed(&[ident("C"), AttrToken::Punct(',', false), ident("packed")]),
        Some(true)
    );
    assert_eq!(
        repr_args_packed(&[ident("packed"), AttrToken::Punct(',', false), ident("Rust")]),
        Some(true)
    );
    assert_eq!(
        repr_args_packed(&[ident("C"), AttrToken::Punct(',', false), ident("u8")]),
        Some(false)
    );
    assert_eq!(repr_args_packed(&[]), None);
    assert_eq!(repr_args_packed(&[ident("_")]), None);
    assert_eq!(
        repr_args_packed(&[ident("packed"), AttrToken::Punct(',', false), ident("struct")]),
        None
    );
    assert_eq!(repr_args_packed(&[ident("C"), ident("packed")]), None);
    assert_eq!(
        repr_args_packed(&[
            ident("packed"),
            AttrToken::Open(typesize::derive::attrs::Delimiter::Parenthesis),
            AttrToken::Literal("2".to_string()),
            AttrToken::Close(typesize::derive::attrs::Delimiter::Parenthesis),
        ]),
        None
    );

    assert_eq!(check_repr_packed(&[]), Some(false));
    assert_eq!(
        check_repr_packed(&[
            AttributeModel { ident: Some("derive".to_string()), meta: AttrMeta::List(vec![ident("Default")]) },
            list("repr", vec![ident("C")]),
            list("repr", vec![ident("packed")]),
        ]),
        Some(true)
    );
    assert_eq!(
        check_repr_packed(&[AttributeModel { ident: Some("repr".to_string()), meta: AttrMeta::Path }]),
        Some(false)
    );
    assert_eq!(check_repr_packed(&[list("repr", vec![])]), None);
}

#[test]
fn field_configurations_parse() {
    assert_eq!(config_text(parse_field_config(&[ident("skip")])), Ok("skip".to_string()));
    assert_eq!(
        config_text(parse_field_config(&[ident("with"), AttrToken::Punct('=', false), ident("f")])),
        Ok("with f".to_string())
    );
    assert_eq!(
        config_text(parse_field_config(&[
            ident("with"),
            AttrToken::Punct('=', false),
            AttrToken::Punct(':', true),
            AttrToken::Punct(':', false),
            ident("sizes"),
            AttrToken::Punct(':', true),
            AttrToken::Punct(':', false),
            ident("of_field"),
        ])),
        Ok("with ::sizes::of_field".to_string())
    );
    assert_eq!(
        config_text(parse_field_config(&[ident("skip"), ident("more")])),
        Err(DeriveError::UnexpectedToken)
    );
    assert_eq!(config_text(parse_field_config(&[ident("size")])), Err(DeriveError::ExpectedSkipOrWith));
    assert_eq!(config_text(parse_field_config(&[])), Err(DeriveError::ExpectedSkipOrWith));
    assert_eq!(config_text(parse_field_config(&[ident("with"), ident("f")])), Err(DeriveError::ExpectedEq));
    assert_eq!(
        config_text(parse_field_config(&[ident("with"), AttrToken::Punct('=', false)])),
        Err(DeriveError::ExpectedIdent)
    );
    assert_eq!(
        config_text(parse_field_config(&[
            ident("with"),
            AttrToken::Punct('=', false),
            ident("f"),
            AttrToken::Punct(',', false),
        ])),
        Err(DeriveError::UnexpectedToken)
    );

    assert_eq!(config_text(get_field_config(&[])), Ok("default".to_string()));
    assert_eq!(
        config_text(get_field_config(&[list("serde", vec![ident("skip")]), list("typesize", vec![ident("skip")])])),
        Ok("skip".to_string())
    );
    assert_eq!(
        config_text(get_field_config(&[list("typesize", vec![ident("oops")]), list("typesize", vec![ident("skip")])])),
        Err(DeriveError::ExpectedSkipOrWith)
    );

    assert_eq!(parse_path(&[ident("a"), AttrToken::Punct(':', true), AttrToken::Punct(':', false), ident("b")], 0), Some((4, "a::b".to_string())));
    let colons = || vec![AttrToken::Punct(':', true), AttrToken::Punct(':', false)];
    let mut generic = vec![ident("with"), AttrToken::Punct('=', false), ident("my_fn")];
    generic.extend(colons());
    generic.extend([AttrToken::Punct('<', false), ident("u8"), AttrToken::Punct('>', false)]);
    assert_eq!(config_text(parse_field_config(&generic)), Ok("with my_fn::<u8>".to_string()));
    let nested = [
        ident("with"),
        AttrToken::Punct('=', false),
        ident("size_of_list"),
        AttrToken::Punct('<', false),
        ident("Vec"),
        AttrToken::Punct('<', false),
        ident("u8"),
        AttrToken::Punct('>', true),
        AttrToken::Punct('>', false),
    ];
    assert_eq!(config_text(parse_field_config(&nested)), Ok("with size_of_list<Vec<u8>>".to_string()));
    let mut dynamic = vec![ident("with"), AttrToken::Punct('=', false), ident("f")];
    dynamic.extend(colons());
    dynamic.extend([AttrToken::Punct('<', false), ident("dyn"), ident("Trait"), AttrToken::Punct('>', false)]);
    assert_eq!(config_text(parse_field_config(&dynamic)), Ok("with f::<dyn Trait>".to_string()));
    let mut scoped = vec![ident("with"), AttrToken::Punct('=', false), ident("self")];
    scoped.extend(colons());
    scoped.push(ident("sizes"));
    assert_eq!(config_text(parse_field_config(&scoped)), Ok("with self::sizes".to_string()));
    assert_eq!(
        config_text(parse_field_config(&[ident("with"), AttrToken::Punct('=', false), ident("fn")])),
        Err(DeriveError::ExpectedIdent)
    );
    let unclosed = [ident("with"), AttrToken::Punct('=', false), ident("f"), AttrToken::Punct('<', false), ident("u8")];
    assert_eq!(config_text(parse_field_config(&unclosed)), Err(DeriveError::ExpectedIdent));

    assert_eq!(parse_path(&[ident("a"), AttrToken::Punct(':', true), AttrToken::Punct(':', false)], 0), None);
    assert_eq!(parse_path(&[AttrToken::Literal("1".to_string())], 0), None);
}

#[test]
fn errors_carry_the_derive_messages() {
    assert_eq!(DeriveError::ExpectedSkipOrWith.message(), "expected `skip` or `with`");
    assert_eq!(DeriveError::ExpectedEq.message(), "expected `=`");
    assert_eq!(DeriveError::ExpectedIdent.message(), "expected identifier");
    assert_eq!(DeriveError::UnexpectedToken.message(), "unexpected token");
    assert_eq!(
        DeriveError::UnionUnsupported.message(),
        "Unions are unsupported for typesize derive."
    );
}

#[test]
fn text_helpers() {
    assert_eq!(decimal_text(0), "0");
    assert_eq!(decimal_text(407), "407");
    assert_eq!(decimal_text(usize::MAX), usize::MAX.to_string());
    let parts = vec!["a".to_string(), "b".to_string(), "c".to_string()];
    assert_eq!(join_text(&parts, " + "), "a + b + c");
    assert_eq!(join_text(&[], ", "), "");
    assert_eq!(concat_text(&parts), "abc");
    assert_eq!(join_tokens(&parts, ", "), "a, b, c");
    assert_eq!(try_join_tokens(vec![Ok("x".to_string()), Ok("y".to_string())], "+"), Ok("x+y".to_string()));
    assert_eq!(
        try_join_tokens(vec![Ok("x".to_string()), Err(DeriveError::ExpectedEq), Ok("y".to_string())], "+"),
        Err(DeriveError::ExpectedEq)
    );
}

#[test]
fn calls_and_identifiers() {
    assert_eq!(gen_call_with_arg("f", "x", PassMode::AsIs), "f(x)");
    assert_eq!(gen_call_with_arg("f", "self.x", PassMode::InsertRef), "f(&self.x)");
    assert_eq!(
        gen_call_with_arg("f", "self.x", PassMode::Packed),
        "({ let __typesize_internal_temp = self.x; f(&__typesize_internal_temp) })"
    );
    assert_eq!(gen_unnamed_ident(12), "var_field_12");
    assert_eq!(gen_unnamed_idents(3), "var_field_0, var_field_1, var_field_2");
    assert_eq!(gen_unnamed_idents(0), "");
    let fields = vec![
        FieldModel { ident: Some("a".to_string()), attrs: vec![] },
        FieldModel { ident: Some("b".to_string()), attrs: vec![] },
    ];
    assert_eq!(get_named_idents(&fields), "a, b");
    let arm = gen_match_arm(
        &VariantModel { ident: "Pair".to_string(), fields: FieldsModel::Named(fields.clone()) },
        "0",
    );
    assert_eq!(arm, "Self::Pair {a, b} => 0, ");
}

#[test]
fn field_visits() {
    let fields = FieldsModel::Unnamed(vec![
        FieldModel { ident: None, attrs: vec![] },
        FieldModel { ident: None, attrs: vec![list("typesize", vec![ident("skip")])] },
    ]);
    assert_eq!(
        for_each_field(&fields, FieldStyle::Enum, PassMode::AsIs, TermKind::Extra),
        Some(Ok("::typesize::TypeSize::extra_size(var_field_0) + 0".to_string()))
    );
    assert_eq!(for_each_field(&FieldsModel::Unit, FieldStyle::Struct, PassMode::InsertRef, TermKind::Details), None);
    let bad = FieldsModel::Named(vec![
        FieldModel { ident: Some("a".to_string()), attrs: vec![list("typesize", vec![ident("with")])] },
    ]);
    assert_eq!(
        for_each_field(&bad, FieldStyle::Struct, PassMode::InsertRef, TermKind::Extra),
        Some(Err(DeriveError::ExpectedEq))
    );
    assert!(gen_struct(&bad, false).is_err());
    let generated = gen_struct(&FieldsModel::Unit, true).unwrap();
    assert_eq!(generated.extra_size, "0_usize");
    assert_eq!(generated.details, Some("vec![]".to_string()));
    let enum_ret = gen_enum(&[]).unwrap();
    assert_eq!(enum_ret.extra_size, "match self { }");
    assert_eq!(enum_ret.details, None);
}
