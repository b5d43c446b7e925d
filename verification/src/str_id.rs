//! The two kinds of string identifier that an evaluation meets, and the way
//! between the store's terms and the view's.

use crate::encoded::{EncodedQuad, EncodedTerm, StrId};
use crate::error::EvaluationError;
use crate::store::{QuadPattern, StoreItem};
use vstd::prelude::*;

verus! {

/// An identifier of a string, from one of two worlds that never meet: the
/// store's own identifiers, and the keys of the strings that the evaluation
/// made up for itself.
#[derive(Eq, PartialEq, Debug, Copy, Clone, Hash)]
pub enum DatasetStrId<I: StrId> {
    /// An identifier that the store gave out.
    Store(I),
    /// The key of a string that only this evaluation knows.
    Temporary(usize),
}

impl<I: StrId> StrId for DatasetStrId<I> {
    fn same_id(&self, other: &Self) -> (same: bool) {
        match (self, other) {
            (DatasetStrId::Store(a), DatasetStrId::Store(b)) => a.same_id(b),
            (DatasetStrId::Temporary(a), DatasetStrId::Temporary(b)) => *a == *b,
            _ => false,
        }
    }
}

/// What a view hands out, item by item.
pub type ViewItem<I, E> = Result<EncodedQuad<DatasetStrId<I>>, EvaluationError<E>>;

/// The store's identifier behind `id`, or a refusal if the store has none.
pub fn unwrap_store_id<I: StrId>(id: DatasetStrId<I>) -> (r: Result<I, ()>)
    ensures
        r == match id {
            DatasetStrId::Store(i) => Ok::<I, ()>(i),
            DatasetStrId::Temporary(_) => Err::<I, ()>(()),
        },
{
    match id {
        DatasetStrId::Store(id) => Ok(id),
        DatasetStrId::Temporary(_) => Err(()),
    }
}

/// Turns an optional lookup inside out: nothing asked is a success with
/// nothing in it, something found is a success, and something asked and not
/// found is a failure.
pub fn transpose<T>(o: Option<Option<T>>) -> (r: Option<Option<T>>)
    ensures
        r == match o {
            Some(Some(v)) => Some(Some(v)),
            Some(None) => None,
            None => Some(None),
        },
{
    match o {
        Some(Some(v)) => Some(Some(v)),
        Some(None) => None,
        None => Some(None),
    }
}

impl<I: StrId> EncodedTerm<I> {
    /// The same term, seen from a view: each identifier is the store's.
    pub open spec fn in_view(self) -> EncodedTerm<DatasetStrId<I>> {
        match self {
            EncodedTerm::DefaultGraph => EncodedTerm::DefaultGraph,
            EncodedTerm::NamedNode { iri_id } => EncodedTerm::NamedNode {
                iri_id: DatasetStrId::Store(iri_id),
            },
            EncodedTerm::InlineBlankNode { id } => EncodedTerm::InlineBlankNode { id },
            EncodedTerm::NamedBlankNode { id_id } => EncodedTerm::NamedBlankNode {
                id_id: DatasetStrId::Store(id_id),
            },
            EncodedTerm::StringLiteral { value_id } => EncodedTerm::StringLiteral {
                value_id: DatasetStrId::Store(value_id),
            },
            EncodedTerm::LangStringLiteral { value_id, language_id } => {
                EncodedTerm::LangStringLiteral {
                    value_id: DatasetStrId::Store(value_id),
                    language_id: DatasetStrId::Store(language_id),
                }
            },
            EncodedTerm::TypedLiteral { value_id, datatype_id } => EncodedTerm::TypedLiteral {
                value_id: DatasetStrId::Store(value_id),
                datatype_id: DatasetStrId::Store(datatype_id),
            },
            EncodedTerm::BooleanLiteral(value) => EncodedTerm::BooleanLiteral(value),
            EncodedTerm::IntegerLiteral(value) => EncodedTerm::IntegerLiteral(value),
        }
    }

    /// Marks each identifier of the term as one of the store's.
    pub fn into_view(self) -> (term: EncodedTerm<DatasetStrId<I>>)
        ensures
            term == self.in_view(),
    {
        match self {
            EncodedTerm::DefaultGraph => EncodedTerm::DefaultGraph,
            EncodedTerm::NamedNode { iri_id } => EncodedTerm::NamedNode {
                iri_id: DatasetStrId::Store(iri_id),
            },
            EncodedTerm::InlineBlankNode { id } => EncodedTerm::InlineBlankNode { id },
            EncodedTerm::NamedBlankNode { id_id } => EncodedTerm::NamedBlankNode {
                id_id: DatasetStrId::Store(id_id),
            },
            EncodedTerm::StringLiteral { value_id } => EncodedTerm::StringLiteral {
                value_id: DatasetStrId::Store(value_id),
            },
            EncodedTerm::LangStringLiteral { value_id, language_id } => {
                EncodedTerm::LangStringLiteral {
                    value_id: DatasetStrId::Store(value_id),
                    language_id: DatasetStrId::Store(language_id),
                }
            },
            EncodedTerm::TypedLiteral { value_id, datatype_id } => EncodedTerm::TypedLiteral {
                value_id: DatasetStrId::Store(value_id),
                datatype_id: DatasetStrId::Store(datatype_id),
            },
            EncodedTerm::BooleanLiteral(value) => EncodedTerm::BooleanLiteral(value),
            EncodedTerm::IntegerLiteral(value) => EncodedTerm::IntegerLiteral(value),
        }
    }
}

impl<I: StrId> EncodedTerm<DatasetStrId<I>> {
    /// Whether the term holds an identifier that the store never gave out.
    pub open spec fn holds_temporary(self) -> bool {
        match self {
            EncodedTerm::NamedNode { iri_id } => iri_id is Temporary,
            EncodedTerm::NamedBlankNode { id_id } => id_id is Temporary,
            EncodedTerm::StringLiteral { value_id } => value_id is Temporary,
            EncodedTerm::LangStringLiteral { value_id, language_id } => value_id is Temporary
                || language_id is Temporary,
            EncodedTerm::TypedLiteral { value_id, datatype_id } => value_id is Temporary
                || datatype_id is Temporary,
            _ => false,
        }
    }

    /// The term as the store knows it: the one term whose view this is, if
    /// there is one.
    pub open spec fn in_store(self) -> Option<EncodedTerm<I>> {
        if exists|term: EncodedTerm<I>| term.in_view() == self {
            Some(choose|term: EncodedTerm<I>| term.in_view() == self)
        } else {
            None
        }
    }

    /// The term as the store knows it, or a refusal if it holds an identifier
    /// that the store never gave out.
    pub fn try_into_store(self) -> (r: Result<EncodedTerm<I>, ()>)
        ensures
            r == match self.in_store() {
                Some(term) => Ok::<EncodedTerm<I>, ()>(term),
                None => Err::<EncodedTerm<I>, ()>(()),
            },
            r is Err <==> self.holds_temporary(),
    {
        let r = match self {
            EncodedTerm::DefaultGraph => Ok(EncodedTerm::DefaultGraph),
            EncodedTerm::NamedNode { iri_id } => match unwrap_store_id(iri_id) {
                Ok(iri_id) => Ok(EncodedTerm::NamedNode { iri_id }),
                Err(()) => Err(()),
            },
            EncodedTerm::InlineBlankNode { id } => Ok(EncodedTerm::InlineBlankNode { id }),
            EncodedTerm::NamedBlankNode { id_id } => match unwrap_store_id(id_id) {
                Ok(id_id) => Ok(EncodedTerm::NamedBlankNode { id_id }),
                Err(()) => Err(()),
            },
            EncodedTerm::StringLiteral { value_id } => match unwrap_store_id(value_id) {
                Ok(value_id) => Ok(EncodedTerm::StringLiteral { value_id }),
                Err(()) => Err(()),
            },
            EncodedTerm::LangStringLiteral { value_id, language_id } => match (
                unwrap_store_id(value_id),
                unwrap_store_id(language_id),
            ) {
                (Ok(value_id), Ok(language_id)) => Ok(
                    EncodedTerm::LangStringLiteral { value_id, language_id },
                ),
                _ => Err(()),
            },
            EncodedTerm::TypedLiteral { value_id, datatype_id } => match (
                unwrap_store_id(value_id),
                unwrap_store_id(datatype_id),
            ) {
                (Ok(value_id), Ok(datatype_id)) => Ok(
                    EncodedTerm::TypedLiteral { value_id, datatype_id },
                ),
                _ => Err(()),
            },
            EncodedTerm::BooleanLiteral(value) => Ok(EncodedTerm::BooleanLiteral(value)),
            EncodedTerm::IntegerLiteral(value) => Ok(EncodedTerm::IntegerLiteral(value)),
        };
        proof {
            lemma_in_store(self);
            if let Ok(term) = r {
                assert(term.in_view() == self);
            }
        }
        r
    }
}

/// A term has a form in the store exactly if it holds no identifier that the
/// store never gave out, and then one form only.
pub proof fn lemma_in_store<I: StrId>(term: EncodedTerm<DatasetStrId<I>>)
    ensures
        term.in_store() is None <==> term.holds_temporary(),
        forall|stored: EncodedTerm<I>|
            stored.in_view() == term ==> term.in_store() == Some(stored),
{
    assert forall|a: EncodedTerm<I>, b: EncodedTerm<I>|
        a.in_view() == term && b.in_view() == term implies a == b by {}
    if !term.holds_temporary() {
        let stored: EncodedTerm<I> = match term {
            EncodedTerm::DefaultGraph => EncodedTerm::DefaultGraph,
            EncodedTerm::NamedNode { iri_id } => EncodedTerm::NamedNode {
                iri_id: iri_id->Store_0,
            },
            EncodedTerm::InlineBlankNode { id } => EncodedTerm::InlineBlankNode { id },
            EncodedTerm::NamedBlankNode { id_id } => EncodedTerm::NamedBlankNode {
                id_id: id_id->Store_0,
            },
            EncodedTerm::StringLiteral { value_id } => EncodedTerm::StringLiteral {
                value_id: value_id->Store_0,
            },
            EncodedTerm::LangStringLiteral { value_id, language_id } => {
                EncodedTerm::LangStringLiteral {
                    value_id: value_id->Store_0,
                    language_id: language_id->Store_0,
                }
            },
            EncodedTerm::TypedLiteral { value_id, datatype_id } => EncodedTerm::TypedLiteral {
                value_id: value_id->Store_0,
                datatype_id: datatype_id->Store_0,
            },
            EncodedTerm::BooleanLiteral(value) => EncodedTerm::BooleanLiteral(value),
            EncodedTerm::IntegerLiteral(value) => EncodedTerm::IntegerLiteral(value),
        };
        assert(stored.in_view() == term);
    }
}

/// One position of a pattern as the store can take it: left open if it was
/// left open, bound to the store's form of its term if the term has one, and
/// nothing at all if the term has none.
pub open spec fn store_position<I: StrId>(position: Option<EncodedTerm<DatasetStrId<I>>>) -> Option<
    Option<EncodedTerm<I>>,
> {
    match position {
        None => Some(None),
        Some(term) => match term.in_store() {
            Some(stored) => Some(Some(stored)),
            None => None,
        },
    }
}

/// Whether the position is bound to a term that holds an identifier that the
/// store never gave out.
pub open spec fn bound_to_temporary<I: StrId>(
    position: Option<EncodedTerm<DatasetStrId<I>>>,
) -> bool {
    match position {
        Some(term) => term.holds_temporary(),
        None => false,
    }
}

/// The pattern as the store can take it, position by position, or nothing
/// if the store cannot take one of them: such a pattern matches no quad of
/// the store.
pub open spec fn store_pattern<I: StrId>(
    subject: Option<EncodedTerm<DatasetStrId<I>>>,
    predicate: Option<EncodedTerm<DatasetStrId<I>>>,
    object: Option<EncodedTerm<DatasetStrId<I>>>,
    graph_name: Option<EncodedTerm<DatasetStrId<I>>>,
) -> Option<QuadPattern<I>> {
    match (
        store_position(subject),
        store_position(predicate),
        store_position(object),
        store_position(graph_name),
    ) {
        (Some(s), Some(p), Some(o), Some(g)) => Some((s, p, o, g)),
        _ => None,
    }
}

/// The store can take a pattern unless one of its bound positions holds an
/// identifier that the store never gave out.
pub proof fn lemma_store_pattern<I: StrId>(
    subject: Option<EncodedTerm<DatasetStrId<I>>>,
    predicate: Option<EncodedTerm<DatasetStrId<I>>>,
    object: Option<EncodedTerm<DatasetStrId<I>>>,
    graph_name: Option<EncodedTerm<DatasetStrId<I>>>,
)
    ensures
        store_pattern(subject, predicate, object, graph_name) is None <==> (bound_to_temporary(
            subject,
        ) || bound_to_temporary(predicate) || bound_to_temporary(object)
            || bound_to_temporary(graph_name)),
{
    if let Some(term) = subject {
        lemma_in_store(term);
    }
    if let Some(term) = predicate {
        lemma_in_store(term);
    }
    if let Some(term) = object {
        lemma_in_store(term);
    }
    if let Some(term) = graph_name {
        lemma_in_store(term);
    }
}

/// One position of a pattern, made ready for the store.
fn try_map_position<I: StrId>(position: Option<EncodedTerm<DatasetStrId<I>>>) -> (r: Option<
    Option<EncodedTerm<I>>,
>)
    ensures
        r == store_position(position),
{
    let looked_up = match position {
        Some(term) => Some(
            match term.try_into_store() {
                Ok(stored) => Some(stored),
                Err(()) => None,
            },
        ),
        None => None,
    };
    transpose(looked_up)
}

/// The pattern as the store can take it, or `None` if a bound position holds
/// an identifier that the store never gave out.
pub fn try_map_quad_pattern<I: StrId>(
    subject: Option<EncodedTerm<DatasetStrId<I>>>,
    predicate: Option<EncodedTerm<DatasetStrId<I>>>,
    object: Option<EncodedTerm<DatasetStrId<I>>>,
    graph_name: Option<EncodedTerm<DatasetStrId<I>>>,
) -> (pattern: Option<QuadPattern<I>>)
    ensures
        pattern == store_pattern(subject, predicate, object, graph_name),
{
    let subject = match try_map_position(subject) {
        Some(position) => position,
        None => {
            return None;
        },
    };
    let predicate = match try_map_position(predicate) {
        Some(position) => position,
        None => {
            return None;
        },
    };
    let object = match try_map_position(object) {
        Some(position) => position,
        None => {
            return None;
        },
    };
    let graph_name = match try_map_position(graph_name) {
        Some(position) => position,
        None => {
            return None;
        },
    };
    Some((subject, predicate, object, graph_name))
}

impl<I: StrId> EncodedQuad<I> {
    /// The same quad, seen from a view.
    pub open spec fn in_view(self) -> EncodedQuad<DatasetStrId<I>> {
        EncodedQuad {
            subject: self.subject.in_view(),
            predicate: self.predicate.in_view(),
            object: self.object.in_view(),
            graph_name: self.graph_name.in_view(),
        }
    }
}

/// What a view makes of one item of a scan: the quad with each identifier
/// marked as the store's, or the failure as a failure of the evaluation.
pub open spec fn item_in_view<I: StrId, E>(item: StoreItem<I, E>) -> ViewItem<I, E> {
    match item {
        Ok(quad) => Ok(quad.in_view()),
        Err(error) => Err(EvaluationError::Store(error)),
    }
}

/// What a view makes of a scan: of each item what [`item_in_view`] says, in
/// the same order.
pub open spec fn items_in_view<I: StrId, E>(items: Seq<StoreItem<I, E>>) -> Seq<ViewItem<I, E>> {
    items.map_values(|item: StoreItem<I, E>| item_in_view(item))
}

/// Hands one item of a scan on as the view's own.
pub fn item_into_view<I: StrId, E>(item: StoreItem<I, E>) -> (seen: ViewItem<I, E>)
    ensures
        seen == item_in_view(item),
{
    match item {
        Ok(quad) => Ok(
            EncodedQuad {
                subject: quad.subject.into_view(),
                predicate: quad.predicate.into_view(),
                object: quad.object.into_view(),
                graph_name: quad.graph_name.into_view(),
            },
        ),
        Err(error) => Err(EvaluationError::from(error)),
    }
}

/// Hands a scan of the store on as the view's own: each quad with its
/// identifiers marked as the store's, each failure as a failure of the
/// evaluation, nothing added, dropped or moved.
pub fn map_iter<I: StrId, E>(items: Vec<StoreItem<I, E>>) -> (mapped: Vec<ViewItem<I, E>>)
    ensures
        mapped@ == items_in_view(items@),
{
    let mut mapped: Vec<ViewItem<I, E>> = Vec::new();
    for item in it: items.into_iter()
        invariant
            it.seq() == items@,
            mapped@ == items_in_view(items@.take(it.index() as int)),
    {
        mapped.push(item_into_view(item));
        proof {
            let k = it.index() as int;
            assert(items@.take(k + 1) =~= items@.take(k).push(items@[k]));
            assert(mapped@ =~= items_in_view(items@.take(k + 1)));
        }
    }
    proof {
        assert(items@.take(items@.len() as int) =~= items@);
    }
    mapped
}

} // verus!
