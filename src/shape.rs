use crate::token::Token;
use vstd::prelude::*;

verus! {

/// A lifetime parameter (`'a: 'b + 'c`), each lifetime with its leading quote.
pub struct LifetimeParam {
    pub name: String,
    pub bounds: Vec<String>,
}

/// A type parameter with the bounds it is declared with, each bound as tokens.
pub struct TypeParam {
    pub name: String,
    pub bounds: Vec<Vec<Token>>,
}

/// The generic parameters of a declaration and its `where` clause, each
/// predicate as tokens.
pub struct Generics {
    pub lifetimes: Vec<LifetimeParam>,
    pub type_params: Vec<TypeParam>,
    pub where_clause: Vec<Vec<Token>>,
}

/// A named field with its type.
pub struct Field {
    pub name: String,
    pub ty: Vec<Token>,
}

/// The payload of a struct or of one variant of an enum.
pub enum Fields {
    /// Named fields, in declared order.
    Record(Vec<Field>),
    /// Positional fields, in declared order, each given by its type.
    TupleLike(Vec<Vec<Token>>),
    /// No payload.
    Unit,
}

/// One variant of an enum.
pub struct Variant {
    pub name: String,
    pub fields: Fields,
}

/// The shape of a declared type.
pub enum Kind {
    /// A struct.
    Struct(Fields),
    /// An enum, with its variants in declared order.
    Sum(Vec<Variant>),
}

/// A declared type: its name, its shape and its generic parameters.
pub struct TypeShape {
    pub name: String,
    pub kind: Kind,
    pub generics: Generics,
}

} // verus!
