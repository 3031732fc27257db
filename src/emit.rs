use vstd::prelude::*;
use crate::model::{EnumDecl, FieldShape, Policy, PolicyView, VariantDecl, field_count, policy_views};

verus! {

/// The text of one decimal digit.
pub open spec fn digit_text(d: nat) -> Seq<char> {
    if d == 0 {
        "0"@
    } else if d == 1 {
        "1"@
    } else if d == 2 {
        "2"@
    } else if d == 3 {
        "3"@
    } else if d == 4 {
        "4"@
    } else if d == 5 {
        "5"@
    } else if d == 6 {
        "6"@
    } else if d == 7 {
        "7"@
    } else if d == 8 {
        "8"@
    } else {
        "9"@
    }
}

/// The decimal text of a number.
pub open spec fn decimal(n: nat) -> Seq<char>
    decreases n,
{
    if n < 10 {
        digit_text(n)
    } else {
        decimal(n / 10) + digit_text(n % 10)
    }
}

/// How one character is written inside a string literal.
pub open spec fn escape_char(c: char) -> Seq<char> {
    if c == '"' {
        "\\\""@
    } else if c == '\\' {
        "\\\\"@
    } else if c == '\r' {
        "\\r"@
    } else {
        seq![c]
    }
}

/// The characters of a text as written inside a string literal.
pub open spec fn escaped(s: Seq<char>) -> Seq<char>
    decreases s.len(),
{
    if s.len() == 0 {
        Seq::empty()
    } else {
        escaped(s.drop_last()) + escape_char(s.last())
    }
}

/// A string literal that denotes the text `s`.
pub open spec fn string_literal(s: Seq<char>) -> Seq<char> {
    "\""@ + escaped(s) + "\""@
}

/// The name bound to the field at index `i` in a pattern.
pub open spec fn binder(i: nat) -> Seq<char> {
    "f"@ + decimal(i)
}

/// The binders of the first `n` fields, separated by commas: `f0, f1, ...`.
pub open spec fn binders(n: nat) -> Seq<char>
    decreases n,
{
    if n == 0 {
        Seq::empty()
    } else if n == 1 {
        binder(0)
    } else {
        binders((n - 1) as nat) + ", "@ + binder((n - 1) as nat)
    }
}

/// The formatting arguments for the first `n` fields: `, f0, f1, ...`.
pub open spec fn format_args_text(n: nat) -> Seq<char>
    decreases n,
{
    if n == 0 {
        Seq::empty()
    } else {
        format_args_text((n - 1) as nat) + ", "@ + binder((n - 1) as nat)
    }
}

/// The type of a shape's first field.
pub open spec fn first_field_type(shape: FieldShape) -> Seq<char> {
    match shape {
        FieldShape::Unnamed(fs) => if fs@.len() > 0 {
            fs@[0].ty@
        } else {
            Seq::empty()
        },
        _ => Seq::empty(),
    }
}

/// The conversion from a variant's field type into the enum, where the
/// policy asks for one.
pub open spec fn from_impl_text(enum_name: Seq<char>, v: VariantDecl, p: PolicyView) -> Seq<char> {
    if p.make_from {
        "impl ::std::convert::From<"@ + first_field_type(v.shape) + "> for "@ + enum_name
            + " {\n    fn from(e: "@ + first_field_type(v.shape) + ") -> Self {\n        Self::"@
            + v.name@ + "(e)\n    }\n}\n"@
    } else {
        Seq::empty()
    }
}

/// The match arm that renders a variant.
pub open spec fn display_arm_text(v: VariantDecl, p: PolicyView) -> Seq<char> {
    match v.shape {
        FieldShape::Unnamed(fs) => "            Self::"@ + v.name@ + "("@ + binders(fs@.len())
            + ") => f.write_fmt(format_args!("@ + string_literal(p.format_str)
            + format_args_text(fs@.len()) + ")),\n"@,
        _ => "            Self::"@ + v.name@ + " => f.write_fmt(format_args!("@ + string_literal(p.format_str) + ")),\n"@,
    }
}

/// The match arm that returns a variant's field as its cause, where the
/// policy marks it as one.
pub open spec fn source_arm_text(v: VariantDecl, p: PolicyView) -> Seq<char> {
    if p.err {
        "            Self::"@ + v.name@ + "(e) => ::std::option::Option::Some(e),\n"@
    } else {
        Seq::empty()
    }
}

/// The conversions of the first `k` variants.
pub open spec fn from_impls_text(
    enum_name: Seq<char>,
    vs: Seq<VariantDecl>,
    ps: Seq<PolicyView>,
    k: nat,
) -> Seq<char>
    decreases k,
{
    if k == 0 {
        Seq::empty()
    } else {
        from_impls_text(enum_name, vs, ps, (k - 1) as nat) + from_impl_text(
            enum_name,
            vs[k - 1],
            ps[k - 1],
        )
    }
}

/// The rendering arms of the first `k` variants.
pub open spec fn display_arms_text(vs: Seq<VariantDecl>, ps: Seq<PolicyView>, k: nat) -> Seq<char>
    decreases k,
{
    if k == 0 {
        Seq::empty()
    } else {
        display_arms_text(vs, ps, (k - 1) as nat) + display_arm_text(vs[k - 1], ps[k - 1])
    }
}

/// The cause arms of the first `k` variants.
pub open spec fn source_arms_text(vs: Seq<VariantDecl>, ps: Seq<PolicyView>, k: nat) -> Seq<char>
    decreases k,
{
    if k == 0 {
        Seq::empty()
    } else {
        source_arms_text(vs, ps, (k - 1) as nat) + source_arm_text(vs[k - 1], ps[k - 1])
    }
}

pub open spec fn display_head(enum_name: Seq<char>) -> Seq<char> {
    "impl ::std::fmt::Display for "@ + enum_name
        + " {\n    fn fmt(&self, f: &mut ::std::fmt::Formatter<'_>) -> ::std::fmt::Result {\n        match self {\n"@
}

pub open spec fn source_head(enum_name: Seq<char>) -> Seq<char> {
    "impl ::std::error::Error for "@ + enum_name
        + " {\n    fn source(&self) -> ::std::option::Option<&(dyn ::std::error::Error + 'static)> {\n        match self {\n"@
}

/// The source text generated for an enum from its variants' policies.
pub open spec fn generated_text(decl: EnumDecl, ps: Seq<PolicyView>) -> Seq<char> {
    let n = decl.variants@.len();
    from_impls_text(decl.name@, decl.variants@, ps, n) + display_head(decl.name@)
        + display_arms_text(decl.variants@, ps, n) + "        }\n    }\n}\n"@ + source_head(
        decl.name@,
    ) + source_arms_text(decl.variants@, ps, n)
        + "            _ => ::std::option::Option::None,\n        }\n    }\n}\n"@
}

/// Policies that the emitter can render: one per variant, and a conversion
/// only from a variant with exactly one field.
pub open spec fn renderable(decl: EnumDecl, ps: Seq<PolicyView>) -> bool {
    &&& ps.len() == decl.variants@.len()
    &&& forall|i: int|
        0 <= i < ps.len() && #[trigger] ps[i].make_from ==> field_count(decl.variants@[i].shape)
            == 1
}

fn append_digit(out: &mut String, d: usize)
    requires
        d < 10,
    ensures
        final(out)@ == old(out)@ + digit_text(d as nat),
{
    if d == 0 {
        out.append("0");
    } else if d == 1 {
        out.append("1");
    } else if d == 2 {
        out.append("2");
    } else if d == 3 {
        out.append("3");
    } else if d == 4 {
        out.append("4");
    } else if d == 5 {
        out.append("5");
    } else if d == 6 {
        out.append("6");
    } else if d == 7 {
        out.append("7");
    } else if d == 8 {
        out.append("8");
    } else {
        out.append("9");
    }
}

fn append_decimal(out: &mut String, n: usize)
    ensures
        final(out)@ == old(out)@ + decimal(n as nat),
    decreases n,
{
    if n >= 10 {
        append_decimal(out, n / 10);
    }
    append_digit(out, n % 10);
    assert(final(out)@ =~= old(out)@ + decimal(n as nat));
}

fn append_binder(out: &mut String, i: usize)
    ensures
        final(out)@ == old(out)@ + binder(i as nat),
{
    out.append("f");
    append_decimal(out, i);
    assert(final(out)@ =~= old(out)@ + binder(i as nat));
}

fn append_string_literal(out: &mut String, s: &String)
    ensures
        final(out)@ == old(out)@ + string_literal(s@),
{
    let ghost start = out@;
    out.append("\"");
    let t = s.as_str();
    let n = t.unicode_len();
    let mut i: usize = 0;
    assert(s@.take(0) =~= Seq::<char>::empty());
    while i < n
        invariant
            i <= n,
            n == s@.len(),
            t@ == s@,
            out@ == start + "\""@ + escaped(s@.take(i as int)),
        decreases n - i,
    {
        let c = t.get_char(i);
        if c == '"' {
            out.append("\\\"");
        } else if c == '\\' {
            out.append("\\\\");
        } else if c == '\r' {
            out.append("\\r");
        } else {
            let one = t.substring_char(i, i + 1);
            assert(one@ =~= seq![c]);
            out.append(one);
        }
        assert(s@.take(i + 1).drop_last() =~= s@.take(i as int));
        assert(out@ =~= start + "\""@ + escaped(s@.take(i + 1)));
        i += 1;
    }
    assert(s@.take(n as int) =~= s@);
    out.append("\"");
    assert(out@ =~= start + string_literal(s@));
}

fn append_from_impl(out: &mut String, enum_name: &String, v: &VariantDecl, p: &Policy)
    requires
        p.make_from ==> field_count(v.shape) == 1,
    ensures
        final(out)@ == old(out)@ + from_impl_text(enum_name@, *v, p@),
{
    if p.make_from {
        if let FieldShape::Unnamed(fs) = &v.shape {
            let ty = fs[0].ty.as_str();
            out.append("impl ::std::convert::From<");
            out.append(ty);
            out.append("> for ");
            out.append(enum_name.as_str());
            out.append(" {\n    fn from(e: ");
            out.append(ty);
            out.append(") -> Self {\n        Self::");
            out.append(v.name.as_str());
            out.append("(e)\n    }\n}\n");
        }
    }
    assert(final(out)@ =~= old(out)@ + from_impl_text(enum_name@, *v, p@));
}

fn append_display_arm(out: &mut String, v: &VariantDecl, p: &Policy)
    ensures
        final(out)@ == old(out)@ + display_arm_text(*v, p@),
{
    let ghost start = out@;
    out.append("            Self::");
    out.append(v.name.as_str());
    match &v.shape {
        FieldShape::Unnamed(fs) => {
            let n = fs.len();
            out.append("(");
            let ghost mid = out@;
            let mut i: usize = 0;
            while i < n
                invariant
                    i <= n,
                    out@ == mid + binders(i as nat),
                decreases n - i,
            {
                if i > 0 {
                    out.append(", ");
                }
                append_binder(out, i);
                assert(out@ =~= mid + binders((i + 1) as nat));
                i += 1;
            }
            out.append(") => f.write_fmt(format_args!(");
            append_string_literal(out, &p.format_str);
            let ghost mid2 = out@;
            let mut j: usize = 0;
            while j < n
                invariant
                    j <= n,
                    out@ == mid2 + format_args_text(j as nat),
                decreases n - j,
            {
                out.append(", ");
                append_binder(out, j);
                assert(out@ =~= mid2 + format_args_text((j + 1) as nat));
                j += 1;
            }
            out.append(")),\n");
        },
        _ => {
            out.append(" => f.write_fmt(format_args!(");
            append_string_literal(out, &p.format_str);
            out.append(")),\n");
        },
    }
    assert(out@ =~= start + display_arm_text(*v, p@));
}

fn append_source_arm(out: &mut String, v: &VariantDecl, p: &Policy)
    ensures
        final(out)@ == old(out)@ + source_arm_text(*v, p@),
{
    if p.err {
        out.append("            Self::");
        out.append(v.name.as_str());
        out.append("(e) => ::std::option::Option::Some(e),\n");
    }
    assert(final(out)@ =~= old(out)@ + source_arm_text(*v, p@));
}

/// Renders the conversions, the `Display` implementation and the
/// `std::error::Error` implementation of an enum from its variants' policies.
pub fn emit(decl: &EnumDecl, policies: &Vec<Policy>) -> (r: String)
    requires
        renderable(*decl, policy_views(policies@)),
    ensures
        r@ == generated_text(*decl, policy_views(policies@)),
{
    let vs = &decl.variants;
    let n = vs.len();
    let mut out = String::new();
    let mut i: usize = 0;
    while i < n
        invariant
            i <= n,
            n == vs@.len(),
            vs@ == decl.variants@,
            renderable(*decl, policy_views(policies@)),
            out@ == from_impls_text(decl.name@, vs@, policy_views(policies@), i as nat),
        decreases n - i,
    {
        assert(policy_views(policies@)[i as int].make_from == policies@[i as int].make_from);
        append_from_impl(&mut out, &decl.name, &vs[i], &policies[i]);
        i += 1;
    }
    out.append("impl ::std::fmt::Display for ");
    out.append(decl.name.as_str());
    out.append(
        " {\n    fn fmt(&self, f: &mut ::std::fmt::Formatter<'_>) -> ::std::fmt::Result {\n        match self {\n",
    );
    let ghost after_head = out@;
    let mut i: usize = 0;
    while i < n
        invariant
            i <= n,
            n == vs@.len(),
            vs@ == decl.variants@,
            policies@.len() == n,
            out@ == after_head + display_arms_text(vs@, policy_views(policies@), i as nat),
        decreases n - i,
    {
        append_display_arm(&mut out, &vs[i], &policies[i]);
        assert(out@ =~= after_head + display_arms_text(vs@, policy_views(policies@), (i + 1) as nat));
        i += 1;
    }
    out.append("        }\n    }\n}\n");
    out.append("impl ::std::error::Error for ");
    out.append(decl.name.as_str());
    out.append(
        " {\n    fn source(&self) -> ::std::option::Option<&(dyn ::std::error::Error + 'static)> {\n        match self {\n",
    );
    let ghost after_source_head = out@;
    let mut i: usize = 0;
    while i < n
        invariant
            i <= n,
            n == vs@.len(),
            vs@ == decl.variants@,
            policies@.len() == n,
            out@ == after_source_head + source_arms_text(vs@, policy_views(policies@), i as nat),
        decreases n - i,
    {
        append_source_arm(&mut out, &vs[i], &policies[i]);
        assert(out@ =~= after_source_head + source_arms_text(vs@, policy_views(policies@), (i + 1) as nat));
        i += 1;
    }
    out.append("            _ => ::std::option::Option::None,\n        }\n    }\n}\n");
    assert(out@ =~= generated_text(*decl, policy_views(policies@)));
    out
}

} // verus!
