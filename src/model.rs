use vstd::prelude::*;

verus! {

/// One token of an annotation's argument list.
pub enum Token {
    /// An identifier, such as `skip`.
    Ident(Vec<char>),
    /// A punctuation mark, a literal or a delimited group.
    Other,
}

/// An annotation attached to a variant or a field.
pub enum Annotation {
    /// A bare path, as in `#[non_exhaustive]`.
    Path(Vec<Vec<char>>),
    /// A path followed by a delimited argument list, as in `#[debug(skip)]`.
    List(Vec<Vec<char>>, Vec<Token>),
    /// A path with an assigned value, as in `#[doc = "..."]`.
    NameValue(Vec<Vec<char>>),
}

/// The declared type of a field.
pub enum FieldType {
    /// A type written as a path; the segments are given in order.
    Path(Vec<Vec<char>>),
    /// Any other type (a reference, a tuple, an array, ...).
    Other,
}

/// One payload slot of a variant.
pub struct FieldDescriptor {
    /// The field's name; present for named-field payloads only.
    pub name: Option<Vec<char>>,
    pub ty: FieldType,
    pub attrs: Vec<Annotation>,
}

/// The payload shape of a variant.
pub enum Fields {
    /// No payload.
    Unit,
    /// Positional fields, as in `V(A, B)`.
    Unnamed(Vec<FieldDescriptor>),
    /// Named fields, as in `V { a: A, b: B }`.
    Named(Vec<FieldDescriptor>),
}

/// One alternative of a sum type.
pub struct VariantDescriptor {
    pub name: Vec<char>,
    pub fields: Fields,
    pub attrs: Vec<Annotation>,
}

/// The shape of the declared type.
pub enum Data {
    /// A sum type and its variants, in declaration order.
    Enum(Vec<VariantDescriptor>),
    /// A record with a single shape.
    Struct,
    /// An untagged union.
    Union,
}

/// The structural description of a type declaration.
pub struct TypeDescriptor {
    pub name: Vec<char>,
    pub data: Data,
}

/// The simple name of a declared type: the last segment of its path.
pub open spec fn simple_name(ty: FieldType) -> Option<Seq<char>> {
    match ty {
        FieldType::Path(segs) => if segs@.len() > 0 {
            Some(segs@.last()@)
        } else {
            None
        },
        FieldType::Other => None,
    }
}

/// The text that a flattened payload's representation is expected to start
/// with: the simple name of its type, or nothing where it has none.
pub open spec fn type_prefix(ty: FieldType) -> Seq<char> {
    match simple_name(ty) {
        Some(n) => n,
        None => Seq::empty(),
    }
}

} // verus!
