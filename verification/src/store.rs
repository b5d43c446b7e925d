//! What this layer asks of the persistent store.

use crate::encoded::{EncodedQuad, EncodedTerm, StrId};
use crate::model::{GraphName, NamedNode, NamedOrBlankNode};
use vstd::prelude::*;

verus! {

/// A quad pattern: subject, predicate, object and graph name, each bound to a
/// term or left open.
pub type QuadPattern<I> = (
    Option<EncodedTerm<I>>,
    Option<EncodedTerm<I>>,
    Option<EncodedTerm<I>>,
    Option<EncodedTerm<I>>,
);

/// What a scan hands out, item by item: a quad, or the failure that took its
/// place.
pub type StoreItem<I, E> = Result<EncodedQuad<I>, E>;

/// What a store says of a term: its encoded form, that it does not know the
/// term, or that it failed.
pub type Encoding<I, E> = Result<Option<EncodedTerm<I>>, E>;

/// A store of encoded quads and of the strings behind their identifiers,
/// read only.
///
/// Each method comes with a predicate that says which answers the method may
/// give. Nothing is assumed of these predicates: as they stand they admit
/// every answer, so a store that can fail at any moment fits. A store that
/// knows more of its answers says so by defining them, and what is proved of
/// a view of that store then speaks of those answers.
pub trait ReadableEncodedStore {
    /// The identifiers that stand for strings.
    type StrId: StrId;

    /// What the store fails with.
    type Error;

    /// Whether the store may give `answer` when asked for the string of `id`.
    open spec fn gives_str(
        &self,
        id: Self::StrId,
        answer: Result<Option<String>, Self::Error>,
    ) -> bool {
        true
    }

    /// Whether the store may give `answer` when asked for the identifier of
    /// `value`.
    open spec fn gives_str_id(
        &self,
        value: Seq<char>,
        answer: Result<Option<Self::StrId>, Self::Error>,
    ) -> bool {
        true
    }

    /// Whether a scan for `pattern` may hand out `items`, in that order.
    open spec fn yields(
        &self,
        pattern: QuadPattern<Self::StrId>,
        items: Seq<StoreItem<Self::StrId, Self::Error>>,
    ) -> bool {
        true
    }

    /// The string that `id` stands for, if the store has one.
    fn get_str(&self, id: Self::StrId) -> (answer: Result<Option<String>, Self::Error>)
        ensures
            self.gives_str(id, answer),
    ;

    /// The identifier of `value`, if the store has one.
    fn get_str_id(&self, value: &str) -> (answer: Result<Option<Self::StrId>, Self::Error>)
        ensures
            self.gives_str_id(value@, answer),
    ;

    /// The quads that match the pattern, in the store's own order. A failure
    /// takes the place of the quad that could not be read.
    fn encoded_quads_for_pattern(
        &self,
        subject: Option<EncodedTerm<Self::StrId>>,
        predicate: Option<EncodedTerm<Self::StrId>>,
        object: Option<EncodedTerm<Self::StrId>>,
        graph_name: Option<EncodedTerm<Self::StrId>>,
    ) -> (items: Vec<StoreItem<Self::StrId, Self::Error>>)
        ensures
            self.yields((subject, predicate, object, graph_name), items@),
    ;
}

/// A store that can tell the encoded form of a term. As in
/// [`ReadableEncodedStore`], each method comes with a predicate of which
/// nothing is assumed.
pub trait ReadEncoder: ReadableEncodedStore {
    /// Whether the store may give `answer` when asked to encode `graph_name`.
    open spec fn encodes_graph_name(
        &self,
        graph_name: GraphName,
        answer: Encoding<Self::StrId, Self::Error>,
    ) -> bool {
        true
    }

    /// Whether the store may give `answer` when asked to encode `node`.
    open spec fn encodes_named_or_blank_node(
        &self,
        node: NamedOrBlankNode,
        answer: Encoding<Self::StrId, Self::Error>,
    ) -> bool {
        true
    }

    /// Whether the store may give `answer` when asked to encode `node`.
    open spec fn encodes_named_node(
        &self,
        node: NamedNode,
        answer: Encoding<Self::StrId, Self::Error>,
    ) -> bool {
        true
    }

    /// The encoded form of a graph name, if the store knows all of its
    /// strings.
    fn get_encoded_graph_name(&self, graph_name: &GraphName) -> (answer: Encoding<
        Self::StrId,
        Self::Error,
    >)
        ensures
            self.encodes_graph_name(*graph_name, answer),
    ;

    /// The encoded form of a node, if the store knows all of its strings.
    fn get_encoded_named_or_blank_node(&self, node: &NamedOrBlankNode) -> (answer: Encoding<
        Self::StrId,
        Self::Error,
    >)
        ensures
            self.encodes_named_or_blank_node(*node, answer),
    ;

    /// The encoded form of an IRI, if the store knows it.
    fn get_encoded_named_node(&self, node: &NamedNode) -> (answer: Encoding<
        Self::StrId,
        Self::Error,
    >)
        ensures
            self.encodes_named_node(*node, answer),
    ;
}

} // verus!
