use vstd::prelude::*;

verus! {

/// The options that a directive can set.
#[derive(Clone, Copy, Debug, PartialEq, Eq, Structural)]
pub enum DirectiveOption {
    ErrFlag,
    MakeFrom,
    FormatStr,
}

/// The literal given as the value of a directive option.
#[derive(Debug)]
pub enum Literal {
    Bool(bool),
    Str(String),
    /// Any other kind of literal (a number, a character, ...).
    Other,
}

/// One entry of a directive's argument list.
#[derive(Debug)]
pub enum DirectiveItem {
    /// `name = value`.
    Setting(String, Literal),
    /// Anything that is not of the form `name = literal`.
    Malformed,
}

/// One directive block attached to a variant.
#[derive(Debug)]
pub struct Directive {
    pub items: Vec<DirectiveItem>,
}

/// An unnamed field of a variant.
#[derive(Debug)]
pub struct Field {
    /// The field's type, as source text.
    pub ty: String,
    /// The identifier of the last segment of the type's path, where the type
    /// is a path with at least one segment.
    pub path_tail: Option<String>,
}

/// The field list of a variant.
#[derive(Debug)]
pub enum FieldShape {
    Unit,
    Unnamed(Vec<Field>),
    /// Record-style fields, which are not supported.
    Named,
}

/// One variant of the enum, with the directive blocks attached to it.
#[derive(Debug)]
pub struct VariantDecl {
    pub name: String,
    pub shape: FieldShape,
    pub directives: Vec<Directive>,
}

/// The declaration that the derivation is applied to.
#[derive(Debug)]
pub struct EnumDecl {
    pub name: String,
    /// Whether the declaration is an enum at all.
    pub is_enum: bool,
    pub variants: Vec<VariantDecl>,
}

/// The resolved policy of one variant.
#[derive(Debug)]
pub struct Policy {
    pub err: bool,
    pub make_from: bool,
    pub format_str: String,
}

/// The mathematical value of a policy.
pub struct PolicyView {
    pub err: bool,
    pub make_from: bool,
    pub format_str: Seq<char>,
}

impl View for Policy {
    type V = PolicyView;

    open spec fn view(&self) -> PolicyView {
        PolicyView { err: self.err, make_from: self.make_from, format_str: self.format_str@ }
    }
}

/// The mathematical values of a sequence of policies.
pub open spec fn policy_views(ps: Seq<Policy>) -> Seq<PolicyView> {
    ps.map_values(|p: Policy| p@)
}

/// Why one variant is rejected.
#[derive(Clone, Copy, Debug, PartialEq, Eq, Structural)]
pub enum VariantError {
    NamedFieldsUnsupported,
    DuplicateDirective,
    /// The directive is not a list of `name = literal` entries.
    MalformedDirective,
    UnknownDirectiveOption,
    /// The option's value has the wrong kind of literal.
    BadOptionType(DirectiveOption),
    /// `err` is set on a variant without exactly one field.
    ErrArityMismatch,
    /// `make_from` is set on a variant without exactly one field.
    FromArityMismatch,
}

/// Why a declaration is rejected.
#[derive(Clone, Copy, Debug, PartialEq, Eq, Structural)]
pub enum DeriveError {
    NotAnEnum,
    /// The variant at this index is rejected.
    Variant(usize, VariantError),
}

/// The number of fields of a shape.
pub open spec fn field_count(shape: FieldShape) -> nat {
    match shape {
        FieldShape::Unnamed(fs) => fs@.len(),
        _ => 0,
    }
}

} // verus!
