use vstd::prelude::*;
use crate::model::{DirectiveItem, FieldShape, PolicyView, VariantDecl, VariantError, field_count};
use crate::policy::{apply_item, apply_items, default_policy, is_error_tail, placeholders, resolve_variant};
use crate::emit::{display_arm_text, escaped, source_arm_text, string_literal};

verus! {

/// Whether some entry of a directive sets the option called `word`.
pub open spec fn mentions(items: Seq<DirectiveItem>, word: Seq<char>) -> bool {
    exists|i: int|
        0 <= i < items.len() && #[trigger] items[i] is Setting && items[i]->Setting_0@ == word
}

/// A unit variant without a directive has the empty format string and no
/// cause: it renders as the empty text, and its cause arm is absent.
pub proof fn lemma_unit_variant_renders_empty(v: VariantDecl)
    requires
        v.shape is Unit,
        v.directives@.len() == 0,
    ensures
        resolve_variant(v) == Ok::<PolicyView, VariantError>(
            PolicyView { err: false, make_from: false, format_str: Seq::empty() },
        ),
        display_arm_text(v, resolve_variant(v)->Ok_0) == "            Self::"@ + v.name@
            + " => f.write_fmt(format_args!("@ + "\""@ + "\""@ + ")),\n"@,
        source_arm_text(v, resolve_variant(v)->Ok_0) == Seq::<char>::empty(),
{
    assert(escaped(Seq::empty()) == Seq::<char>::empty());
    assert(string_literal(Seq::empty()) =~= "\""@ + "\""@);
}

/// A variant with one unnamed field whose type path ends in `Error` defaults
/// to a wrapped cause with a conversion and the format `{}`; without a
/// directive that is its policy.
pub proof fn lemma_error_field_defaults(v: VariantDecl)
    requires
        v.shape is Unnamed,
        v.shape->Unnamed_0@.len() == 1,
        is_error_tail(v.shape->Unnamed_0@[0].path_tail),
    ensures
        default_policy(v) == (PolicyView { err: true, make_from: true, format_str: "{}"@ }),
        v.directives@.len() == 0 ==> resolve_variant(v) == Ok::<PolicyView, VariantError>(
            default_policy(v),
        ),
{
}

/// A variant with one unnamed field whose type path does not end in `Error`
/// defaults to no cause, no conversion and the format `{}`; without a
/// directive that is its policy.
pub proof fn lemma_plain_field_defaults(v: VariantDecl)
    requires
        v.shape is Unnamed,
        v.shape->Unnamed_0@.len() == 1,
        !is_error_tail(v.shape->Unnamed_0@[0].path_tail),
    ensures
        default_policy(v) == (PolicyView { err: false, make_from: false, format_str: "{}"@ }),
        v.directives@.len() == 0 ==> resolve_variant(v) == Ok::<PolicyView, VariantError>(
            default_policy(v),
        ),
{
}

/// Applying directive entries changes only the options they mention.
pub proof fn lemma_directive_keeps_unmentioned(items: Seq<DirectiveItem>, p: PolicyView)
    requires
        apply_items(items, p) is Ok,
    ensures
        !mentions(items, "err"@) ==> apply_items(items, p)->Ok_0.err == p.err,
        !mentions(items, "make_from"@) ==> apply_items(items, p)->Ok_0.make_from == p.make_from,
        !mentions(items, "format_str"@) ==> apply_items(items, p)->Ok_0.format_str
            == p.format_str,
    decreases items.len(),
{
    if items.len() > 0 {
        let rest = items.drop_first();
        let q = apply_item(items[0], p)->Ok_0;
        lemma_directive_keeps_unmentioned(rest, q);
        assert forall|w: Seq<char>| mentions(rest, w) implies mentions(items, w) by {
            let i = choose|i: int|
                0 <= i < rest.len() && #[trigger] rest[i] is Setting && rest[i]->Setting_0@ == w;
            assert(items[i + 1] == rest[i]);
        }
        if items[0] is Setting {
            assert(mentions(items, items[0]->Setting_0@));
        }
    }
}

/// `placeholders(n)` is `n` placeholders `{}`, each but the first preceded by
/// exactly one space, and nothing else.
pub proof fn lemma_placeholders_shape(n: nat)
    ensures
        n == 0 ==> placeholders(n).len() == 0,
        n > 0 ==> placeholders(n).len() == 3 * n - 1,
        forall|k: int|
            0 <= k < n ==> #[trigger] placeholders(n)[3 * k] == '{' && placeholders(n)[3 * k + 1]
                == '}',
        forall|k: int| 0 < k < n ==> #[trigger] placeholders(n)[3 * k - 1] == ' ',
    decreases n,
{
    reveal_strlit("{}");
    reveal_strlit(" {}");
    if n > 1 {
        let m = (n - 1) as nat;
        lemma_placeholders_shape(m);
        let prev = placeholders(m);
        assert(placeholders(n) == prev + " {}"@);
        assert forall|k: int| 0 <= k < n implies #[trigger] placeholders(n)[3 * k] == '{'
            && placeholders(n)[3 * k + 1] == '}' by {
            if k < m {
                assert(prev[3 * k] == '{');
                assert(prev[3 * k + 1] == '}');
            }
        }
        assert forall|k: int| 0 < k < n implies #[trigger] placeholders(n)[3 * k - 1] == ' ' by {
            if k < m {
                assert(prev[3 * k - 1] == ' ');
            }
        }
    }
}

/// The default format string of a variant with `n` fields survives, as `n`
/// placeholders separated by single spaces, unless a directive sets it.
pub proof fn lemma_default_format_kept(v: VariantDecl)
    requires
        resolve_variant(v) is Ok,
        v.directives@.len() == 1 ==> !mentions(v.directives@[0].items@, "format_str"@),
    ensures
        resolve_variant(v)->Ok_0.format_str == placeholders(field_count(v.shape)),
{
    if v.directives@.len() == 1 {
        lemma_directive_keeps_unmentioned(v.directives@[0].items@, default_policy(v));
    }
}

/// `err` or `make_from` on a variant without exactly one field is rejected,
/// whether it was inferred or set by a directive.
pub proof fn lemma_arity_enforced(v: VariantDecl)
    ensures
        resolve_variant(v) is Ok && resolve_variant(v)->Ok_0.err ==> field_count(v.shape) == 1,
        resolve_variant(v) is Ok && resolve_variant(v)->Ok_0.make_from ==> field_count(v.shape)
            == 1,
{
}

/// Two or more directive blocks on one variant are rejected whatever they
/// hold.
pub proof fn lemma_duplicate_directive_rejected(v: VariantDecl)
    requires
        v.directives@.len() >= 2,
        !(v.shape is Named),
    ensures
        resolve_variant(v) == Err::<PolicyView, VariantError>(VariantError::DuplicateDirective),
{
}

} // verus!
