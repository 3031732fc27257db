use autoerror::{
    infer_format_str, infer_is_error, parse_variant, resolve_policies, DeriveError,
    Directive, DirectiveItem, DirectiveOption, EnumDecl, Field, FieldShape, Literal, VariantDecl,
    VariantError,
};

fn field(ty: &str) -> Field {
    let tail = ty.rsplit("::").next().unwrap().to_string();
    Field { ty: ty.to_string(), path_tail: Some(tail) }
}

fn unnamed(name: &str, tys: &[&str]) -> VariantDecl {
    VariantDecl {
        name: name.to_string(),
        shape: FieldShape::Unnamed(tys.iter().map(|t| field(t)).collect()),
        directives: vec![],
    }
}

fn unit(name: &str) -> VariantDecl {
    VariantDecl { name: name.to_string(), shape: FieldShape::Unit, directives: vec![] }
}

fn set_bool(name: &str, b: bool) -> DirectiveItem {
    DirectiveItem::Setting(name.to_string(), Literal::Bool(b))
}

fn set_str(name: &str, s: &str) -> DirectiveItem {
    DirectiveItem::Setting(name.to_string(), Literal::Str(s.to_string()))
}

fn with(mut v: VariantDecl, items: Vec<DirectiveItem>) -> VariantDecl {
    v.directives.push(Directive { items });
    v
}

fn decl(name: &str, variants: Vec<VariantDecl>) -> EnumDecl {
    EnumDecl { name: name.to_string(), is_enum: true, variants }
}

fn from_impl(enum_name: &str, variant: &str, ty: &str) -> String {
    format!(
        "impl ::std::convert::From<{ty}> for {enum_name} {{\n    fn from(e: {ty}) -> Self {{\n        Self::{variant}(e)\n    }}\n}}\n"
    )
}

fn source_arm(variant: &str) -> String {
    format!("            Self::{variant}(e) => ::std::option::Option::Some(e),\n")
}

fn variant_error(r: Result<String, DeriveError>) -> (usize, VariantError) {
    match r {
        Err(DeriveError::Variant(i, e)) => (i, e),
        other => panic!("expected a rejected variant, got {:?}", other),
    }
}

#[test]
fn tests() {
    // A declaration with an explicit cause and an inferred one compiles.
    let basic = decl(
        "Error",
        vec![
            with(unnamed("A", &["std::io::Error"]), vec![set_bool("err", true)]),
            unnamed("B", &["std::fmt::Error"]),
        ],
    );
    assert!(autoerror::derive(&basic).is_ok());

    // The mixed declaration with overrides compiles.
    let generation = decl(
        "Error",
        vec![
            unnamed("A", &["e1::Error"]),
            with(
                unnamed("B", &["e2::Error"]),
                vec![set_bool("err", false), set_bool("make_from", false), set_str("format_str", "Error {}")],
            ),
            with(unnamed("C", &["e3::NotError"]), vec![set_bool("err", true), set_bool("make_from", true)]),
            with(unnamed("D", &["e4::NotError"]), vec![set_bool("make_from", true)]),
            unnamed("E", &["String", "isize"]),
            unnamed("F", &[]),
        ],
    );
    assert!(autoerror::derive(&generation).is_ok());

    // A struct is rejected.
    let structure = EnumDecl { name: "Error".to_string(), is_enum: false, variants: vec![] };
    assert!(matches!(autoerror::derive(&structure), Err(DeriveError::NotAnEnum)));

    // Two directive blocks on one variant are rejected.
    let double = decl(
        "Error",
        vec![
            with(with(unnamed("A", &["std::io::Error"]), vec![set_bool("err", true)]), vec![]),
            unnamed("B", &["std::fmt::Error"]),
        ],
    );
    assert_eq!(variant_error(autoerror::derive(&double)), (0, VariantError::DuplicateDirective));
}

#[test]
fn generation_policies_match_overrides() {
    let generation = decl(
        "Error",
        vec![
            unnamed("A", &["e1::Error"]),
            with(
                unnamed("B", &["e2::Error"]),
                vec![set_bool("err", false), set_bool("make_from", false), set_str("format_str", "Error {}")],
            ),
            with(unnamed("C", &["e3::NotError"]), vec![set_bool("err", true), set_bool("make_from", true)]),
            with(unnamed("D", &["e4::NotError"]), vec![set_bool("make_from", true)]),
            unnamed("E", &["String", "isize"]),
            unnamed("F", &[]),
        ],
    );
    let ps = resolve_policies(&generation).unwrap();
    let got: Vec<(bool, bool, &str)> =
        ps.iter().map(|p| (p.err, p.make_from, p.format_str.as_str())).collect();
    assert_eq!(
        got,
        vec![
            (true, true, "{}"),
            (false, false, "Error {}"),
            (true, true, "{}"),
            (false, true, "{}"),
            (false, false, "{} {}"),
            (false, false, ""),
        ]
    );
    let text = autoerror::derive(&generation).unwrap();
    assert!(text.contains(&from_impl("Error", "A", "e1::Error")));
    assert!(!text.contains("From<e2::Error>"));
    assert!(text.contains(&from_impl("Error", "C", "e3::NotError")));
    assert!(text.contains(&from_impl("Error", "D", "e4::NotError")));
    assert!(text.contains("Self::B(f0) => f.write_fmt(format_args!(\"Error {}\", f0)),"));
    assert!(text.contains("Self::F() => f.write_fmt(format_args!(\"\")),"));
    assert!(text.contains(&source_arm("A")));
    assert!(!text.contains(&source_arm("B")));
    assert!(text.contains(&source_arm("C")));
    assert!(!text.contains(&source_arm("D")));
}

#[test]
fn unit_variant_without_directive_renders_empty() {
    let d = decl("Error", vec![unit("Gone")]);
    let p = parse_variant(&d.variants[0]).unwrap();
    assert!(!p.err && !p.make_from);
    assert_eq!(p.format_str, "");
    let text = autoerror::derive(&d).unwrap();
    assert!(text.contains("            Self::Gone => f.write_fmt(format_args!(\"\")),\n"));
    assert!(!text.contains("Self::Gone(e)"));
}

#[test]
fn error_named_field_defaults_to_cause() {
    for ty in ["std::io::Error", "crate::module::Error", "Error"] {
        let v = unnamed("A", &[ty]);
        assert!(infer_is_error(&v));
        let p = parse_variant(&v).unwrap();
        assert_eq!((p.err, p.make_from, p.format_str.as_str()), (true, true, "{}"));
    }
}

#[test]
fn other_field_defaults_to_plain() {
    for ty in ["NotError", "String", "std::io::ErrorKind", "error::Wrapper"] {
        let v = unnamed("A", &[ty]);
        assert!(!infer_is_error(&v));
        let p = parse_variant(&v).unwrap();
        assert_eq!((p.err, p.make_from, p.format_str.as_str()), (false, false, "{}"));
    }
    let no_path = VariantDecl {
        name: "A".to_string(),
        shape: FieldShape::Unnamed(vec![Field { ty: "&'static str".to_string(), path_tail: None }]),
        directives: vec![],
    };
    assert!(!infer_is_error(&no_path));
    assert!(!infer_is_error(&unnamed("A", &["std::io::Error", "std::io::Error"])));
}

#[test]
fn default_format_has_one_placeholder_per_field() {
    assert_eq!(infer_format_str(&unit("A")), "");
    assert_eq!(infer_format_str(&unnamed("A", &[])), "");
    assert_eq!(infer_format_str(&unnamed("A", &["u8"])), "{}");
    assert_eq!(infer_format_str(&unnamed("A", &["u8", "u8", "u8"])), "{} {} {}");
}

#[test]
fn format_override_keeps_inferred_cause() {
    let v = with(unnamed("A", &["std::io::Error"]), vec![set_str("format_str", "io: {}")]);
    let p = parse_variant(&v).unwrap();
    assert_eq!((p.err, p.make_from, p.format_str.as_str()), (true, true, "io: {}"));
    let v = with(unnamed("A", &["std::io::Error"]), vec![set_bool("make_from", false)]);
    let p = parse_variant(&v).unwrap();
    assert_eq!((p.err, p.make_from, p.format_str.as_str()), (true, false, "{}"));
}

#[test]
fn later_entry_of_a_directive_wins() {
    let v = with(unnamed("A", &["u8"]), vec![set_bool("err", true), set_bool("err", false)]);
    let p = parse_variant(&v).unwrap();
    assert!(!p.err);
}

#[test]
fn arity_is_enforced_for_cause_and_conversion() {
    let e = with(unnamed("A", &["u8", "u8"]), vec![set_bool("err", true)]);
    assert_eq!(parse_variant(&e).unwrap_err(), VariantError::ErrArityMismatch);
    let f = with(unit("A"), vec![set_bool("make_from", true)]);
    assert_eq!(parse_variant(&f).unwrap_err(), VariantError::FromArityMismatch);
    let both = with(unnamed("A", &[]), vec![set_bool("err", true), set_bool("make_from", true)]);
    assert_eq!(parse_variant(&both).unwrap_err(), VariantError::ErrArityMismatch);
}

#[test]
fn duplicate_directive_rejected_even_when_empty() {
    let v = with(with(unit("A"), vec![]), vec![]);
    assert_eq!(parse_variant(&v).unwrap_err(), VariantError::DuplicateDirective);
}

#[test]
fn named_fields_rejected_first() {
    let v = VariantDecl {
        name: "A".to_string(),
        shape: FieldShape::Named,
        directives: vec![Directive { items: vec![] }, Directive { items: vec![] }],
    };
    assert_eq!(parse_variant(&v).unwrap_err(), VariantError::NamedFieldsUnsupported);
}

#[test]
fn bad_directive_entries_rejected() {
    let unknown = with(unit("A"), vec![set_bool("colour", true)]);
    assert_eq!(parse_variant(&unknown).unwrap_err(), VariantError::UnknownDirectiveOption);
    let malformed = with(unit("A"), vec![DirectiveItem::Malformed]);
    assert_eq!(parse_variant(&malformed).unwrap_err(), VariantError::MalformedDirective);
    let err_str = with(unit("A"), vec![set_str("err", "yes")]);
    assert_eq!(
        parse_variant(&err_str).unwrap_err(),
        VariantError::BadOptionType(DirectiveOption::ErrFlag)
    );
    let from_other = with(unit("A"), vec![DirectiveItem::Setting("make_from".to_string(), Literal::Other)]);
    assert_eq!(
        parse_variant(&from_other).unwrap_err(),
        VariantError::BadOptionType(DirectiveOption::MakeFrom)
    );
    let fmt_bool = with(unit("A"), vec![set_bool("format_str", true)]);
    assert_eq!(
        parse_variant(&fmt_bool).unwrap_err(),
        VariantError::BadOptionType(DirectiveOption::FormatStr)
    );
}

#[test]
fn first_rejected_variant_is_reported() {
    let d = decl(
        "Error",
        vec![
            unit("Fine"),
            with(unit("A"), vec![set_bool("err", true)]),
            with(with(unit("B"), vec![]), vec![]),
        ],
    );
    assert_eq!(variant_error(autoerror::derive(&d)), (1, VariantError::ErrArityMismatch));
}

#[test]
fn io_and_fmt_causes() {
    let d = decl("Error", vec![unnamed("A", &["io::Error"]), unnamed("B", &["fmt::Error"])]);
    let text = autoerror::derive(&d).unwrap();
    assert!(text.contains(&from_impl("Error", "A", "io::Error")));
    assert!(text.contains(&source_arm("A")));
    assert!(text.contains("Self::A(f0) => f.write_fmt(format_args!(\"{}\", f0)),"));
    assert!(text.contains("Self::B(f0) => f.write_fmt(format_args!(\"{}\", f0)),"));
    // `fmt::Error` ends in the segment `Error` too, so the same rule applies.
    assert!(text.contains(&from_impl("Error", "B", "fmt::Error")));
    assert!(text.contains(&source_arm("B")));
}

#[test]
fn two_field_variant_renders_positionally() {
    let d = decl("Error", vec![unnamed("E", &["String", "isize"])]);
    let text = autoerror::derive(&d).unwrap();
    assert!(text.contains("            Self::E(f0, f1) => f.write_fmt(format_args!(\"{} {}\", f0, f1)),\n"));
    assert!(!text.contains("Self::E(e)"));
    assert!(!text.contains("From<"));
    assert_eq!(format!("{} {}", "bla", 5isize), "bla 5");
}

#[test]
fn unit_variant_with_custom_text() {
    let d = decl(
        "Error",
        vec![with(unit("NotFound"), vec![set_str("format_str", "Document not found")])],
    );
    let text = autoerror::derive(&d).unwrap();
    assert!(text.contains(
        "            Self::NotFound => f.write_fmt(format_args!(\"Document not found\")),\n"
    ));
    assert!(!text.contains("Self::NotFound(e)"));
}

#[test]
fn forced_cause_on_other_type() {
    let d = decl(
        "Error",
        vec![with(unnamed("C", &["NotErrorType"]), vec![set_bool("err", true), set_bool("make_from", true)])],
    );
    let text = autoerror::derive(&d).unwrap();
    assert!(text.contains(&from_impl("Error", "C", "NotErrorType")));
    assert!(text.contains(&source_arm("C")));
}

#[test]
fn many_fields_get_decimal_binders() {
    let tys = ["u8"; 12];
    let d = decl("Error", vec![unnamed("Wide", &tys)]);
    let text = autoerror::derive(&d).unwrap();
    assert!(text.contains("Self::Wide(f0, f1, f2, f3, f4, f5, f6, f7, f8, f9, f10, f11) =>"));
    assert!(text.contains(", f9, f10, f11)),\n"));
}

#[test]
fn format_text_is_escaped() {
    let d = decl(
        "Error",
        vec![with(unit("Q"), vec![set_str("format_str", "say \"hi\" \\ back\r")])],
    );
    let text = autoerror::derive(&d).unwrap();
    assert!(text.contains("format_args!(\"say \\\"hi\\\" \\\\ back\\r\")"));
}

#[test]
fn whole_text_of_a_small_enum() {
    let d = decl("Oops", vec![unnamed("Io", &["std::io::Error"]), unit("Other")]);
    let expected = String::new()
        + &from_impl("Oops", "Io", "std::io::Error")
        + "impl ::std::fmt::Display for Oops {\n"
        + "    fn fmt(&self, f: &mut ::std::fmt::Formatter<'_>) -> ::std::fmt::Result {\n"
        + "        match self {\n"
        + "            Self::Io(f0) => f.write_fmt(format_args!(\"{}\", f0)),\n"
        + "            Self::Other => f.write_fmt(format_args!(\"\")),\n"
        + "        }\n    }\n}\n"
        + "impl ::std::error::Error for Oops {\n"
        + "    fn source(&self) -> ::std::option::Option<&(dyn ::std::error::Error + 'static)> {\n"
        + "        match self {\n"
        + "            Self::Io(e) => ::std::option::Option::Some(e),\n"
        + "            _ => ::std::option::Option::None,\n"
        + "        }\n    }\n}\n";
    assert_eq!(autoerror::derive(&d).unwrap(), expected);
}
