use vstd::prelude::*;
use crate::model::{
    DeriveError, Directive, DirectiveItem, DirectiveOption, EnumDecl, FieldShape, Literal,
    Policy, PolicyView, VariantDecl, VariantError, field_count, policy_views,
};

verus! {

/// Whether a type path ends in the segment `Error`.
pub open spec fn is_error_tail(tail: Option<String>) -> bool {
    match tail {
        Some(t) => t@ == "Error"@,
        None => false,
    }
}

/// The name-based heuristic: a variant wraps a cause when it has exactly one
/// unnamed field whose type path ends in the segment `Error`.
pub open spec fn inferred_cause(v: VariantDecl) -> bool {
    match v.shape {
        FieldShape::Unnamed(fs) => fs@.len() == 1 && is_error_tail(fs@[0].path_tail),
        _ => false,
    }
}

/// `n` placeholders `{}` separated by single spaces.
pub open spec fn placeholders(n: nat) -> Seq<char>
    decreases n,
{
    if n == 0 {
        Seq::empty()
    } else if n == 1 {
        "{}"@
    } else {
        placeholders((n - 1) as nat) + " {}"@
    }
}

/// The policy of a variant before its directive is applied.
pub open spec fn default_policy(v: VariantDecl) -> PolicyView {
    PolicyView {
        err: inferred_cause(v),
        make_from: inferred_cause(v),
        format_str: placeholders(field_count(v.shape)),
    }
}

/// The effect of one directive entry on a policy.
pub open spec fn apply_item(item: DirectiveItem, p: PolicyView) -> Result<PolicyView, VariantError> {
    match item {
        DirectiveItem::Malformed => Err(VariantError::MalformedDirective),
        DirectiveItem::Setting(name, value) => {
            if name@ == "err"@ {
                match value {
                    Literal::Bool(b) => Ok(PolicyView { err: b, ..p }),
                    _ => Err(VariantError::BadOptionType(DirectiveOption::ErrFlag)),
                }
            } else if name@ == "format_str"@ {
                match value {
                    Literal::Str(s) => Ok(PolicyView { format_str: s@, ..p }),
                    _ => Err(VariantError::BadOptionType(DirectiveOption::FormatStr)),
                }
            } else if name@ == "make_from"@ {
                match value {
                    Literal::Bool(b) => Ok(PolicyView { make_from: b, ..p }),
                    _ => Err(VariantError::BadOptionType(DirectiveOption::MakeFrom)),
                }
            } else {
                Err(VariantError::UnknownDirectiveOption)
            }
        },
    }
}

/// The entries of a directive applied in order; the first rejected entry
/// decides the error.
pub open spec fn apply_items(items: Seq<DirectiveItem>, p: PolicyView) -> Result<PolicyView, VariantError>
    decreases items.len(),
{
    if items.len() == 0 {
        Ok(p)
    } else {
        match apply_item(items[0], p) {
            Ok(q) => apply_items(items.drop_first(), q),
            Err(e) => Err(e),
        }
    }
}

/// The policy of a variant, or why the variant is rejected.
pub open spec fn resolve_variant(v: VariantDecl) -> Result<PolicyView, VariantError> {
    if v.shape is Named {
        Err(VariantError::NamedFieldsUnsupported)
    } else if v.directives@.len() > 1 {
        Err(VariantError::DuplicateDirective)
    } else {
        let merged = if v.directives@.len() == 0 {
            Ok(default_policy(v))
        } else {
            apply_items(v.directives@[0].items@, default_policy(v))
        };
        match merged {
            Err(e) => Err(e),
            Ok(p) => {
                if p.err && field_count(v.shape) != 1 {
                    Err(VariantError::ErrArityMismatch)
                } else if p.make_from && field_count(v.shape) != 1 {
                    Err(VariantError::FromArityMismatch)
                } else {
                    Ok(p)
                }
            },
        }
    }
}

/// Whether every variant has a policy.
pub open spec fn all_resolve(vs: Seq<VariantDecl>) -> bool {
    forall|i: int| 0 <= i < vs.len() ==> #[trigger] resolve_variant(vs[i]) is Ok
}

/// The policies of the variants, where all of them resolve.
pub open spec fn resolved_policies(vs: Seq<VariantDecl>) -> Seq<PolicyView> {
    vs.map_values(|v: VariantDecl| resolve_variant(v)->Ok_0)
}

/// The variant at index `i` is the first one rejected, with error `e`.
pub open spec fn first_rejected(vs: Seq<VariantDecl>, i: int, e: VariantError) -> bool {
    &&& 0 <= i < vs.len()
    &&& resolve_variant(vs[i]) == Err::<PolicyView, VariantError>(e)
    &&& forall|j: int| 0 <= j < i ==> #[trigger] resolve_variant(vs[j]) is Ok
}

/// The outcome of analysing a declaration: its policies, or the first reason
/// it is rejected.
pub open spec fn resolution_outcome(decl: EnumDecl, r: Result<Seq<PolicyView>, DeriveError>) -> bool {
    match r {
        Ok(ps) => decl.is_enum && all_resolve(decl.variants@) && ps == resolved_policies(
            decl.variants@,
        ),
        Err(DeriveError::NotAnEnum) => !decl.is_enum,
        Err(DeriveError::Variant(i, e)) => decl.is_enum && first_rejected(
            decl.variants@,
            i as int,
            e,
        ),
    }
}

/// The mathematical value of a resolution result.
pub open spec fn result_view(r: Result<Policy, VariantError>) -> Result<PolicyView, VariantError> {
    match r {
        Ok(p) => Ok(p@),
        Err(e) => Err(e),
    }
}

/// The number of fields of a shape.
pub fn shape_len(shape: &FieldShape) -> (n: usize)
    ensures
        n == field_count(*shape),
{
    match shape {
        FieldShape::Unnamed(fs) => fs.len(),
        _ => 0,
    }
}

/// Whether a variant wraps a cause, by the name of its field's type.
pub fn infer_is_error(variant: &VariantDecl) -> (r: bool)
    ensures
        r == inferred_cause(*variant),
{
    match &variant.shape {
        FieldShape::Unnamed(fields) => {
            if fields.len() != 1 {
                return false;
            }
            match &fields[0].path_tail {
                Some(t) => {
                    let word = String::from_str("Error");
                    t.eq(&word)
                },
                None => false,
            }
        },
        _ => false,
    }
}

/// The default format string: one placeholder per field.
pub fn infer_format_str(variant: &VariantDecl) -> (r: String)
    ensures
        r@ == placeholders(field_count(variant.shape)),
{
    let n = shape_len(&variant.shape);
    let mut result = String::new();
    let mut i: usize = 0;
    while i < n
        invariant
            i <= n,
            n == field_count(variant.shape),
            result@ == placeholders(i as nat),
        decreases n - i,
    {
        if i == 0 {
            result.append("{}");
            assert(result@ =~= placeholders(1));
        } else {
            result.append(" {}");
        }
        i += 1;
    }
    result
}

fn option_named(name: &String, word: &str) -> (r: bool)
    ensures
        r == (name@ == word@),
{
    let w = String::from_str(word);
    name.eq(&w)
}

fn apply_directive_item(item: &DirectiveItem, p: Policy) -> (r: Result<Policy, VariantError>)
    ensures
        result_view(r) == apply_item(*item, p@),
{
    match item {
        DirectiveItem::Malformed => Err(VariantError::MalformedDirective),
        DirectiveItem::Setting(name, value) => {
            if option_named(name, "err") {
                match value {
                    Literal::Bool(b) => Ok(Policy { err: *b, ..p }),
                    _ => Err(VariantError::BadOptionType(DirectiveOption::ErrFlag)),
                }
            } else if option_named(name, "format_str") {
                match value {
                    Literal::Str(s) => Ok(Policy { format_str: s.clone(), ..p }),
                    _ => Err(VariantError::BadOptionType(DirectiveOption::FormatStr)),
                }
            } else if option_named(name, "make_from") {
                match value {
                    Literal::Bool(b) => Ok(Policy { make_from: *b, ..p }),
                    _ => Err(VariantError::BadOptionType(DirectiveOption::MakeFrom)),
                }
            } else {
                Err(VariantError::UnknownDirectiveOption)
            }
        },
    }
}

fn apply_directive(directive: &Directive, p: Policy) -> (r: Result<Policy, VariantError>)
    ensures
        result_view(r) == apply_items(directive.items@, p@),
{
    let items = &directive.items;
    let ghost start = p@;
    let mut cur = p;
    let mut i: usize = 0;
    assert(items@.skip(0) =~= items@);
    while i < items.len()
        invariant
            i <= items@.len(),
            items@ == directive.items@,
            start == p@,
            apply_items(items@, start) == apply_items(items@.skip(i as int), cur@),
        decreases items@.len() - i,
    {
        assert(items@.skip(i as int).len() > 0);
        assert(items@.skip(i as int)[0] == items@[i as int]);
        assert(items@.skip(i as int).drop_first() =~= items@.skip(i + 1));
        let ghost before = cur@;
        match apply_directive_item(&items[i], cur) {
            Ok(q) => {
                cur = q;
            },
            Err(e) => {
                assert(apply_items(items@.skip(i as int), before) == Err::<PolicyView, VariantError>(e));
                return Err(e);
            },
        }
        i += 1;
    }
    assert(items@.skip(i as int) =~= Seq::<DirectiveItem>::empty());
    Ok(cur)
}

/// Resolves the policy of one variant: the inferred defaults, overridden
/// option by option by the variant's directive, then validated against the
/// variant's field count.
pub fn parse_variant(variant: &VariantDecl) -> (r: Result<Policy, VariantError>)
    ensures
        result_view(r) == resolve_variant(*variant),
{
    if let FieldShape::Named = &variant.shape {
        return Err(VariantError::NamedFieldsUnsupported);
    }
    if variant.directives.len() > 1 {
        return Err(VariantError::DuplicateDirective);
    }
    let inferred = infer_is_error(variant);
    let mut result = Policy {
        err: inferred,
        make_from: inferred,
        format_str: infer_format_str(variant),
    };
    if variant.directives.len() == 1 {
        result = apply_directive(&variant.directives[0], result)?;
    }
    let n = shape_len(&variant.shape);
    if result.err && n != 1 {
        return Err(VariantError::ErrArityMismatch);
    }
    if result.make_from && n != 1 {
        return Err(VariantError::FromArityMismatch);
    }
    Ok(result)
}

/// Resolves the policies of all variants of a declaration, in order; the
/// first variant that is rejected aborts the analysis.
pub fn resolve_policies(decl: &EnumDecl) -> (r: Result<Vec<Policy>, DeriveError>)
    ensures
        resolution_outcome(
            *decl,
            match r {
                Ok(ps) => Ok(policy_views(ps@)),
                Err(e) => Err(e),
            },
        ),
{
    if !decl.is_enum {
        return Err(DeriveError::NotAnEnum);
    }
    let vs = &decl.variants;
    let mut out: Vec<Policy> = Vec::new();
    let mut i: usize = 0;
    while i < vs.len()
        invariant
            i <= vs@.len(),
            decl.is_enum,
            vs@ == decl.variants@,
            out@.len() == i,
            forall|j: int| 0 <= j < i ==> resolve_variant(vs@[j]) == Ok::<PolicyView, VariantError>(#[trigger] out@[j]@),
        decreases vs@.len() - i,
    {
        match parse_variant(&vs[i]) {
            Ok(p) => {
                out.push(p);
            },
            Err(e) => {
                assert forall|j: int| 0 <= j < i implies #[trigger] resolve_variant(vs@[j]) is Ok by {
                    assert(resolve_variant(vs@[j]) == Ok::<PolicyView, VariantError>(out@[j]@));
                }
                return Err(DeriveError::Variant(i, e));
            },
        }
        i += 1;
    }
    assert forall|j: int| 0 <= j < vs@.len() implies #[trigger] resolve_variant(vs@[j]) is Ok by {
        assert(resolve_variant(vs@[j]) == Ok::<PolicyView, VariantError>(out@[j]@));
    }
    assert(policy_views(out@) =~= resolved_policies(vs@)) by {
        assert forall|j: int| 0 <= j < vs@.len() implies policy_views(out@)[j] == resolved_policies(vs@)[j] by {
            assert(resolve_variant(vs@[j]) == Ok::<PolicyView, VariantError>(out@[j]@));
        }
    }
    Ok(out)
}

} // verus!
