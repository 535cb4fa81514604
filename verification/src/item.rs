//! Structs and enums as the generators read them: names, fields, variants, and the
//! expressions that set discriminants.

use vstd::prelude::*;

verus! {

/// The expression behind the `=` of an enum variant, as far as the rules on
/// discriminants read it.
#[derive(Clone, Debug)]
pub enum DiscriminantExpr {
    /// An integer literal, with its value.
    IntLiteral(isize),
    /// A literal of another kind.
    OtherLiteral,
    /// A path. It holds a name where the path is one plain identifier.
    Path(Option<String>),
    /// Any other expression.
    Other,
}

/// One variant of an enum.
#[derive(Clone, Debug)]
pub struct Variant {
    /// The name of the variant.
    pub ident: String,
    /// The expression that sets its discriminant, if it has one.
    pub discriminant: Option<DiscriminantExpr>,
}

/// One named field of a struct.
#[derive(Clone, Debug)]
pub struct Field {
    /// The name of the field.
    pub ident: String,
    /// The name of the field's type, which is a specifier.
    pub ty: String,
}

/// The fields of a struct.
#[derive(Clone, Debug)]
pub enum Fields {
    /// Fields with names, in the order of their declaration.
    Named(Vec<Field>),
    /// Fields without names, as in a tuple.
    Unnamed,
    /// No fields at all.
    Unit,
}

/// What an item holds.
#[derive(Clone, Debug)]
pub enum Data {
    Struct(Fields),
    Enum(Vec<Variant>),
    Union,
}

/// A struct, an enum or a union that a transformer is applied to.
#[derive(Clone, Debug)]
pub struct Item {
    /// The name of the item.
    pub ident: String,
    /// Its contents.
    pub data: Data,
}

/// What a variant says of its own discriminant.
#[derive(Clone, Debug)]
pub enum Discriminant {
    /// The value that an integer literal gives.
    Literal(isize),
    /// The name of a constant.
    Named(String),
}

/// What `variant` says of its own discriminant: the value of an integer literal, or the
/// name of a constant. It says nothing where the variant has no discriminant expression,
/// or one of another form.
pub open spec fn discriminant_of(variant: Variant) -> Option<Discriminant> {
    match variant.discriminant {
        Some(DiscriminantExpr::IntLiteral(value)) => Some(Discriminant::Literal(value)),
        Some(DiscriminantExpr::Path(Some(name))) => Some(Discriminant::Named(name)),
        _ => None,
    }
}

/// What `variant` says of its own discriminant.
pub fn get_discriminant(variant: &Variant) -> (discriminant: Option<Discriminant>)
    ensures
        discriminant == discriminant_of(*variant),
{
    match &variant.discriminant {
        Some(DiscriminantExpr::IntLiteral(value)) => Some(Discriminant::Literal(*value)),
        Some(DiscriminantExpr::Path(Some(name))) => Some(Discriminant::Named(name.clone())),
        _ => None,
    }
}

} // verus!
