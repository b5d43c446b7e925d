//! Working out the graphs of a dataset: each graph that the query names is
//! looked up in the store.

use crate::encoded::{EncodedTerm, StrId};
use crate::graphs::EncodedDatasetSpec;
use crate::model::{DatasetSpec, GraphName, NamedNode, NamedOrBlankNode};
use crate::store::{Encoding, ReadEncoder};
use vstd::prelude::*;

verus! {

/// Whether the store knew the term that it was asked about.
pub open spec fn is_found<I: StrId, E>(answer: Encoding<I, E>) -> bool {
    answer matches Ok(Some(_))
}

/// The terms that the store knew, in the order of the answers.
pub open spec fn found_terms<I: StrId, E>(answers: Seq<Encoding<I, E>>) -> Seq<EncodedTerm<I>> {
    answers.filter(|answer: Encoding<I, E>| is_found(answer)).map_values(
        |answer: Encoding<I, E>| answer->Ok_0->Some_0,
    )
}

/// Whether `answers` is what came of asking the store about `terms` one
/// after another and stopping at the first failure. `may` says which answers
/// the store may give about a term.
pub open spec fn asked_in_turn<T, I: StrId, E>(
    terms: Seq<T>,
    may: spec_fn(T, Encoding<I, E>) -> bool,
    answers: Seq<Encoding<I, E>>,
) -> bool {
    &&& answers.len() <= terms.len()
    &&& forall|i: int| 0 <= i < answers.len() ==> may(terms[i], #[trigger] answers[i])
    &&& forall|i: int| 0 <= i < answers.len() - 1 ==> (#[trigger] answers[i]) is Ok
    &&& answers.len() < terms.len() ==> answers.len() > 0 && answers.last() is Err
}

/// What comes of such answers: the failure, which then stands last, or else
/// the terms that the store knew. A term that the store does not know is left
/// out and is no failure.
pub open spec fn resolved<I: StrId, E>(answers: Seq<Encoding<I, E>>) -> Result<
    Seq<EncodedTerm<I>>,
    E,
> {
    if answers.len() > 0 && answers.last() is Err {
        Err(answers.last()->Err_0)
    } else {
        Ok(found_terms(answers))
    }
}

/// Whether `outcome` is what may come of resolving `terms` against the store.
pub open spec fn list_resolved<T, I: StrId, E>(
    terms: Seq<T>,
    may: spec_fn(T, Encoding<I, E>) -> bool,
    outcome: Result<Seq<EncodedTerm<I>>, E>,
) -> bool {
    exists|answers: Seq<Encoding<I, E>>| #[trigger]
        asked_in_turn(terms, may, answers) && outcome == resolved(answers)
}

/// The answers that a store may give about a graph name.
pub open spec fn graph_name_encoder<S: ReadEncoder>(store: S) -> spec_fn(
    GraphName,
    Encoding<S::StrId, S::Error>,
) -> bool {
    |term: GraphName, answer: Encoding<S::StrId, S::Error>| store.encodes_graph_name(term, answer)
}

/// The answers that a store may give about a node that names a graph.
pub open spec fn node_encoder<S: ReadEncoder>(store: S) -> spec_fn(
    NamedOrBlankNode,
    Encoding<S::StrId, S::Error>,
) -> bool {
    |term: NamedOrBlankNode, answer: Encoding<S::StrId, S::Error>|
        store.encodes_named_or_blank_node(term, answer)
}

/// The answers that a store may give about an IRI.
pub open spec fn iri_encoder<S: ReadEncoder>(store: S) -> spec_fn(
    NamedNode,
    Encoding<S::StrId, S::Error>,
) -> bool {
    |term: NamedNode, answer: Encoding<S::StrId, S::Error>| store.encodes_named_node(term, answer)
}

/// Whether `outcome` is what may come of resolving two lists of terms, the
/// first list first. A failure in the first list ends the work before the
/// second is touched.
pub open spec fn both_resolved<A, B, I: StrId, E>(
    first: Seq<A>,
    first_may: spec_fn(A, Encoding<I, E>) -> bool,
    second: Seq<B>,
    second_may: spec_fn(B, Encoding<I, E>) -> bool,
    outcome: Result<Option<EncodedDatasetSpec<I>>, E>,
) -> bool {
    exists|default: Result<Seq<EncodedTerm<I>>, E>| #[trigger]
        list_resolved(first, first_may, default) && match default {
            Err(error) => outcome == Err::<Option<EncodedDatasetSpec<I>>, E>(error),
            Ok(default) => exists|named: Result<Seq<EncodedTerm<I>>, E>| #[trigger]
                list_resolved(second, second_may, named) && match named {
                    Err(error) => outcome == Err::<Option<EncodedDatasetSpec<I>>, E>(error),
                    Ok(named) => outcome matches Ok(Some(dataset)) && dataset.default@ == default
                        && dataset.named@ == named,
                },
        }
}

/// Whether `outcome` is what may come of working out the restriction of a
/// view. Graphs that are given explicitly come first; without any, the
/// dataset that the query declares is taken; and where that names no graph
/// either, there is no restriction.
pub open spec fn restriction_resolved<S: ReadEncoder>(
    store: S,
    default_graphs: Seq<GraphName>,
    named_graphs: Seq<NamedOrBlankNode>,
    dataset: DatasetSpec,
    outcome: Result<Option<EncodedDatasetSpec<S::StrId>>, S::Error>,
) -> bool {
    if default_graphs.len() > 0 || named_graphs.len() > 0 {
        both_resolved(
            default_graphs,
            graph_name_encoder(store),
            named_graphs,
            node_encoder(store),
            outcome,
        )
    } else if dataset.default@.len() == 0 && dataset.named@.len() == 0 {
        outcome == Ok::<Option<EncodedDatasetSpec<S::StrId>>, S::Error>(None)
    } else {
        both_resolved(
            dataset.default@,
            iri_encoder(store),
            dataset.named@,
            iri_encoder(store),
            outcome,
        )
    }
}

/// Takes up one answer of the store: a term that it knew joins `found`, a
/// term that it did not know is passed over, and a failure is handed back.
pub fn keep_encoded<I: StrId, E>(
    found: &mut Vec<EncodedTerm<I>>,
    answer: Encoding<I, E>,
) -> (r: Result<(), E>)
    ensures
        match answer {
            Ok(Some(term)) => r is Ok && final(found)@ == old(found)@.push(term),
            Ok(None) => r is Ok && final(found)@ == old(found)@,
            Err(error) => r == Err::<(), E>(error) && final(found)@ == old(found)@,
        },
{
    match answer {
        Ok(Some(term)) => {
            found.push(term);
            Ok(())
        },
        Ok(None) => Ok(()),
        Err(error) => Err(error),
    }
}

/// With one more answer, the terms found grow by the term of that answer, if
/// it has one.
proof fn lemma_found_terms_push<I: StrId, E>(answers: Seq<Encoding<I, E>>, answer: Encoding<I, E>)
    ensures
        found_terms(answers.push(answer)) == match answer {
            Ok(Some(term)) => found_terms(answers).push(term),
            _ => found_terms(answers),
        },
{
    reveal(Seq::filter);
    let found = |answer: Encoding<I, E>| is_found(answer);
    assert(answers.push(answer).drop_last() =~= answers);
    assert(answers.push(answer).filter(found) == if found(answer) {
        answers.filter(found).push(answer)
    } else {
        answers.filter(found)
    });
    if let Ok(Some(term)) = answer {
        assert(found_terms(answers.push(answer)) =~= found_terms(answers).push(term));
    }
}

/// Resolves the graph names against the store, in their order.
pub fn encode_graph_names<S: ReadEncoder>(store: &S, graphs: &[GraphName]) -> (r: Result<
    Vec<EncodedTerm<S::StrId>>,
    S::Error,
>)
    ensures
        list_resolved(
            graphs@,
            graph_name_encoder(*store),
            match r {
                Ok(found) => Ok(found@),
                Err(error) => Err(error),
            },
        ),
{
    let mut found: Vec<EncodedTerm<S::StrId>> = Vec::new();
    let ghost mut answers: Seq<Encoding<S::StrId, S::Error>> = Seq::empty();
    let ghost may = graph_name_encoder(*store);
    let mut i: usize = 0;
    proof {
        assert(found_terms(answers) =~= Seq::empty()) by {
            reveal(Seq::filter);
        }
    }
    while i < graphs.len()
        invariant
            i <= graphs.len(),
            may == graph_name_encoder(*store),
            answers.len() == i,
            forall|j: int| 0 <= j < i ==> may(graphs@[j], #[trigger] answers[j]),
            forall|j: int| 0 <= j < i ==> (#[trigger] answers[j]) is Ok,
            found@ == found_terms(answers),
        decreases graphs.len() - i,
    {
        let answer = store.get_encoded_graph_name(&graphs[i]);
        proof {
            lemma_found_terms_push(answers, answer);
            answers = answers.push(answer);
        }
        match keep_encoded(&mut found, answer) {
            Ok(()) => {},
            Err(error) => {
                proof {
                    assert(asked_in_turn(graphs@, may, answers));
                }
                return Err(error);
            },
        }
        i += 1;
    }
    proof {
        assert(asked_in_turn(graphs@, may, answers));
    }
    Ok(found)
}

/// Resolves the nodes against the store, in their order.
pub fn encode_named_or_blank_nodes<S: ReadEncoder>(
    store: &S,
    nodes: &[NamedOrBlankNode],
) -> (r: Result<Vec<EncodedTerm<S::StrId>>, S::Error>)
    ensures
        list_resolved(
            nodes@,
            node_encoder(*store),
            match r {
                Ok(found) => Ok(found@),
                Err(error) => Err(error),
            },
        ),
{
    let mut found: Vec<EncodedTerm<S::StrId>> = Vec::new();
    let ghost mut answers: Seq<Encoding<S::StrId, S::Error>> = Seq::empty();
    let ghost may = node_encoder(*store);
    let mut i: usize = 0;
    proof {
        assert(found_terms(answers) =~= Seq::empty()) by {
            reveal(Seq::filter);
        }
    }
    while i < nodes.len()
        invariant
            i <= nodes.len(),
            may == node_encoder(*store),
            answers.len() == i,
            forall|j: int| 0 <= j < i ==> may(nodes@[j], #[trigger] answers[j]),
            forall|j: int| 0 <= j < i ==> (#[trigger] answers[j]) is Ok,
            found@ == found_terms(answers),
        decreases nodes.len() - i,
    {
        let answer = store.get_encoded_named_or_blank_node(&nodes[i]);
        proof {
            lemma_found_terms_push(answers, answer);
            answers = answers.push(answer);
        }
        match keep_encoded(&mut found, answer) {
            Ok(()) => {},
            Err(error) => {
                proof {
                    assert(asked_in_turn(nodes@, may, answers));
                }
                return Err(error);
            },
        }
        i += 1;
    }
    proof {
        assert(asked_in_turn(nodes@, may, answers));
    }
    Ok(found)
}

/// Resolves the IRIs against the store, in their order.
pub fn encode_named_nodes<S: ReadEncoder>(store: &S, nodes: &[NamedNode]) -> (r: Result<
    Vec<EncodedTerm<S::StrId>>,
    S::Error,
>)
    ensures
        list_resolved(
            nodes@,
            iri_encoder(*store),
            match r {
                Ok(found) => Ok(found@),
                Err(error) => Err(error),
            },
        ),
{
    let mut found: Vec<EncodedTerm<S::StrId>> = Vec::new();
    let ghost mut answers: Seq<Encoding<S::StrId, S::Error>> = Seq::empty();
    let ghost may = iri_encoder(*store);
    let mut i: usize = 0;
    proof {
        assert(found_terms(answers) =~= Seq::empty()) by {
            reveal(Seq::filter);
        }
    }
    while i < nodes.len()
        invariant
            i <= nodes.len(),
            may == iri_encoder(*store),
            answers.len() == i,
            forall|j: int| 0 <= j < i ==> may(nodes@[j], #[trigger] answers[j]),
            forall|j: int| 0 <= j < i ==> (#[trigger] answers[j]) is Ok,
            found@ == found_terms(answers),
        decreases nodes.len() - i,
    {
        let answer = store.get_encoded_named_node(&nodes[i]);
        proof {
            lemma_found_terms_push(answers, answer);
            answers = answers.push(answer);
        }
        match keep_encoded(&mut found, answer) {
            Ok(()) => {},
            Err(error) => {
                proof {
                    assert(asked_in_turn(nodes@, may, answers));
                }
                return Err(error);
            },
        }
        i += 1;
    }
    proof {
        assert(asked_in_turn(nodes@, may, answers));
    }
    Ok(found)
}

} // verus!
