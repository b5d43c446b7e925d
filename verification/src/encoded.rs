//! Encoded terms and quads, over any kind of string identifier.

use vstd::prelude::*;

verus! {

/// An identifier that stands for a string.
pub trait StrId: Copy {
    /// Whether the two identifiers are one and the same.
    fn same_id(&self, other: &Self) -> (same: bool)
        ensures
            same == (*self == *other),
    ;
}

impl StrId for u64 {
    fn same_id(&self, other: &Self) -> (same: bool) {
        *self == *other
    }
}

impl StrId for u128 {
    fn same_id(&self, other: &Self) -> (same: bool) {
        *self == *other
    }
}

/// A term in encoded form. Strings are held by identifier; small values are
/// held inline.
#[derive(Clone, Copy, Debug, PartialEq, Eq, Hash)]
pub enum EncodedTerm<I: StrId> {
    /// The reserved term that names the default graph.
    DefaultGraph,
    NamedNode { iri_id: I },
    InlineBlankNode { id: u128 },
    NamedBlankNode { id_id: I },
    StringLiteral { value_id: I },
    LangStringLiteral { value_id: I, language_id: I },
    TypedLiteral { value_id: I, datatype_id: I },
    BooleanLiteral(bool),
    IntegerLiteral(i64),
}

impl<I: StrId> EncodedTerm<I> {
    /// Whether this is the term that names the default graph.
    pub fn is_default_graph(&self) -> (b: bool)
        ensures
            b == (*self == EncodedTerm::<I>::DefaultGraph),
    {
        match self {
            EncodedTerm::DefaultGraph => true,
            _ => false,
        }
    }

    /// Whether the two terms are of the same kind and hold the same values.
    pub fn same_term(&self, other: &Self) -> (same: bool)
        ensures
            same == (*self == *other),
    {
        match (self, other) {
            (EncodedTerm::DefaultGraph, EncodedTerm::DefaultGraph) => true,
            (EncodedTerm::NamedNode { iri_id: a }, EncodedTerm::NamedNode { iri_id: b }) => {
                a.same_id(b)
            },
            (EncodedTerm::InlineBlankNode { id: a }, EncodedTerm::InlineBlankNode { id: b }) => {
                *a == *b
            },
            (
                EncodedTerm::NamedBlankNode { id_id: a },
                EncodedTerm::NamedBlankNode { id_id: b },
            ) => a.same_id(b),
            (
                EncodedTerm::StringLiteral { value_id: a },
                EncodedTerm::StringLiteral { value_id: b },
            ) => a.same_id(b),
            (
                EncodedTerm::LangStringLiteral { value_id: a, language_id: la },
                EncodedTerm::LangStringLiteral { value_id: b, language_id: lb },
            ) => a.same_id(b) && la.same_id(lb),
            (
                EncodedTerm::TypedLiteral { value_id: a, datatype_id: da },
                EncodedTerm::TypedLiteral { value_id: b, datatype_id: db },
            ) => a.same_id(b) && da.same_id(db),
            (EncodedTerm::BooleanLiteral(a), EncodedTerm::BooleanLiteral(b)) => *a == *b,
            (EncodedTerm::IntegerLiteral(a), EncodedTerm::IntegerLiteral(b)) => *a == *b,
            _ => false,
        }
    }
}

/// A quad in encoded form.
#[derive(Clone, Copy, Debug, PartialEq, Eq, Hash)]
pub struct EncodedQuad<I: StrId> {
    pub subject: EncodedTerm<I>,
    pub predicate: EncodedTerm<I>,
    pub object: EncodedTerm<I>,
    pub graph_name: EncodedTerm<I>,
}

impl<I: StrId> EncodedQuad<I> {
    pub fn new(
        subject: EncodedTerm<I>,
        predicate: EncodedTerm<I>,
        object: EncodedTerm<I>,
        graph_name: EncodedTerm<I>,
    ) -> (quad: Self)
        ensures
            quad == (EncodedQuad { subject, predicate, object, graph_name }),
    {
        EncodedQuad { subject, predicate, object, graph_name }
    }
}

/// Whether `term` occurs in `terms`.
pub fn contains_term<I: StrId>(terms: &Vec<EncodedTerm<I>>, term: &EncodedTerm<I>) -> (found: bool)
    ensures
        found == terms@.contains(*term),
{
    let mut i: usize = 0;
    while i < terms.len()
        invariant
            i <= terms.len(),
            forall|j: int| 0 <= j < i ==> terms@[j] != *term,
        decreases terms.len() - i,
    {
        if terms[i].same_term(term) {
            return true;
        }
        i += 1;
    }
    false
}

} // verus!
