//! Derivation of error-type infrastructure for enum declarations.
//!
//! An enum declaration, described by `EnumDecl`, is analysed variant by
//! variant: each variant gets a policy (whether its single field is a wrapped
//! cause, whether a conversion from that field is generated, and its display
//! format), inferred from its shape and overridden option by option by an
//! optional directive. The policies are validated and then rendered as Rust
//! source text holding `From`, `Display` and `std::error::Error`
//! implementations.

mod model;
mod policy;
mod emit;
mod laws;

use vstd::prelude::*;

pub use model::{
    DeriveError, Directive, DirectiveItem, DirectiveOption, EnumDecl, Field, FieldShape, Literal,
    Policy, PolicyView, VariantDecl, VariantError, field_count, policy_views,
};
pub use policy::{
    all_resolve, apply_item, apply_items, default_policy, first_rejected, inferred_cause,
    infer_format_str, infer_is_error, is_error_tail, parse_variant, placeholders, resolution_outcome,
    resolve_policies, resolve_variant, resolved_policies,
};
pub use emit::{emit, generated_text, renderable};
pub use laws::{
    lemma_arity_enforced, lemma_default_format_kept, lemma_directive_keeps_unmentioned,
    lemma_duplicate_directive_rejected, lemma_error_field_defaults, lemma_placeholders_shape,
    lemma_plain_field_defaults, lemma_unit_variant_renders_empty, mentions,
};

verus! {

/// Analyses a declaration and renders the generated implementations as Rust
/// source text, or reports the first reason the declaration is rejected.
pub fn derive(decl: &EnumDecl) -> (r: Result<String, DeriveError>)
    ensures
        match r {
            Ok(text) => decl.is_enum && all_resolve(decl.variants@) && text@ == generated_text(
                *decl,
                resolved_policies(decl.variants@),
            ),
            Err(e) => resolution_outcome(*decl, Err(e)),
        },
{
    let policies = resolve_policies(decl)?;
    proof {
        let vs = decl.variants@;
        let ps = policy_views(policies@);
        assert forall|i: int| 0 <= i < ps.len() && #[trigger] ps[i].make_from implies field_count(
            vs[i].shape,
        ) == 1 by {
            assert(resolve_variant(vs[i]) is Ok);
            assert(resolve_variant(vs[i]) == Ok::<PolicyView, VariantError>(ps[i]));
        }
    }
    Ok(emit(decl, &policies))
}

} // verus!
