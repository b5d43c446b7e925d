//! The terms by which a query names the graphs of its dataset.

use vstd::prelude::*;

verus! {

/// An IRI.
#[derive(Clone, Debug, PartialEq, Eq, Hash)]
pub struct NamedNode {
    pub iri: String,
}

/// A blank node, known by its label.
#[derive(Clone, Debug, PartialEq, Eq, Hash)]
pub struct BlankNode {
    pub id: String,
}

/// What can name a graph other than the default one.
#[derive(Clone, Debug, PartialEq, Eq, Hash)]
pub enum NamedOrBlankNode {
    NamedNode(NamedNode),
    BlankNode(BlankNode),
}

/// What can name a graph.
#[derive(Clone, Debug, PartialEq, Eq, Hash)]
pub enum GraphName {
    NamedNode(NamedNode),
    BlankNode(BlankNode),
    DefaultGraph,
}

/// The dataset that a query declares for itself: the graphs that make up its
/// default graph, and the graphs that it may address by name.
#[derive(Clone, Debug, PartialEq, Eq, Hash)]
pub struct DatasetSpec {
    pub default: Vec<NamedNode>,
    pub named: Vec<NamedNode>,
}

impl DatasetSpec {
    /// Whether the query declares no graph at all.
    pub fn is_empty(&self) -> (empty: bool)
        ensures
            empty == (self.default@.len() == 0 && self.named@.len() == 0),
    {
        self.default.len() == 0 && self.named.len() == 0
    }
}

} // verus!
