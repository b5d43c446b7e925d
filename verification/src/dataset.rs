//! The view of a store that one query evaluation works on.

use crate::encoded::{EncodedTerm, StrId};
use crate::error::EvaluationError;
use crate::graphs::{
    assembled, graph_scans, scan_in_view, scan_into_view, scanned, select_graphs,
    EncodedDatasetSpec, GraphScan,
};
use crate::interner::{after_intern, is_table, key_of, string_at, Interner, MAX_INTERNED};
use crate::model::{DatasetSpec, GraphName, NamedOrBlankNode};
use crate::restriction::{
    encode_graph_names, encode_named_nodes, encode_named_or_blank_nodes, restriction_resolved,
};
use crate::store::{QuadPattern, ReadEncoder, ReadableEncodedStore, StoreItem};
use crate::str_id::{store_pattern, try_map_quad_pattern, DatasetStrId, ViewItem};
use vstd::prelude::*;

verus! {

/// What a view makes of the store's answer about the identifier of a string
/// that the evaluation did not make up.
pub open spec fn str_id_in_view<I: StrId, E>(answer: Result<Option<I>, E>) -> Result<
    Option<DatasetStrId<I>>,
    EvaluationError<E>,
> {
    match answer {
        Ok(Some(id)) => Ok(Some(DatasetStrId::Store(id))),
        Ok(None) => Ok(None),
        Err(error) => Err(EvaluationError::Store(error)),
    }
}

/// What a view makes of the store's answer about the string of one of the
/// store's identifiers.
pub open spec fn str_in_view<E>(answer: Result<Option<String>, E>) -> Result<
    Option<String>,
    EvaluationError<E>,
> {
    match answer {
        Ok(found) => Ok(found),
        Err(error) => Err(EvaluationError::Store(error)),
    }
}

/// What comes of asking a view for an identifier of `value`, to have or to
/// make, when the store gave `known` about it: the identifier, and the
/// strings that the evaluation has made up by then.
///
/// The store's identifier is taken where there is one, and nothing is made
/// up. A string that the store does not know gets the key that it has among
/// the made-up strings, where it is put first if it is new. A failure of the
/// store is handed on and nothing is made up.
pub open spec fn inserted<I: StrId, E>(
    interned: Seq<Seq<char>>,
    value: Seq<char>,
    known: Result<Option<I>, E>,
) -> (Result<DatasetStrId<I>, EvaluationError<E>>, Seq<Seq<char>>) {
    match known {
        Ok(Some(id)) => (Ok(DatasetStrId::Store(id)), interned),
        Ok(None) => (
            Ok(DatasetStrId::Temporary(key_of(after_intern(interned, value), value) as usize)),
            after_intern(interned, value),
        ),
        Err(error) => (Err(EvaluationError::Store(error)), interned),
    }
}

/// The view of a store that one query evaluation works on. It shows the
/// graphs that the query may see, and it keeps the strings that the
/// evaluation makes up, which the store never learns about.
///
/// A view is a store itself, over identifiers of both kinds: what is written
/// for a store can read from a view.
pub struct DatasetView<S: ReadableEncodedStore> {
    store: S,
    extra: Interner,
    default_graph_as_union: bool,
    dataset: Option<EncodedDatasetSpec<S::StrId>>,
}

impl<S: ReadEncoder> DatasetView<S> {
    /// A view of `store` for one evaluation, with no made-up string yet.
    ///
    /// The graphs that the view shows are worked out once, here. Each graph
    /// is looked up in the store; one that the store does not know is left
    /// out, since it holds no quad. The view is not made if the store fails.
    pub fn new(
        store: S,
        default_graph_as_union: bool,
        default_graphs: &[GraphName],
        named_graphs: &[NamedOrBlankNode],
        dataset: &DatasetSpec,
    ) -> (r: Result<Self, EvaluationError<S::Error>>)
        ensures
            match r {
                Ok(view) => {
                    &&& view.wf()
                    &&& view.persistent() == store
                    &&& view.union_mode() == default_graph_as_union
                    &&& view.interned() == Seq::<Seq<char>>::empty()
                    &&& restriction_resolved(
                        store,
                        default_graphs@,
                        named_graphs@,
                        *dataset,
                        Ok(view.restriction()),
                    )
                },
                Err(EvaluationError::Store(error)) => restriction_resolved(
                    store,
                    default_graphs@,
                    named_graphs@,
                    *dataset,
                    Err(error),
                ),
            },
    {
        let dataset = if default_graphs.len() > 0 || named_graphs.len() > 0 {
            let default = match encode_graph_names(&store, default_graphs) {
                Ok(default) => default,
                Err(error) => {
                    return Err(EvaluationError::from(error));
                },
            };
            let named = match encode_named_or_blank_nodes(&store, named_graphs) {
                Ok(named) => named,
                Err(error) => {
                    return Err(EvaluationError::from(error));
                },
            };
            Some(EncodedDatasetSpec { default, named })
        } else if dataset.is_empty() {
            None
        } else {
            let default = match encode_named_nodes(&store, dataset.default.as_slice()) {
                Ok(default) => default,
                Err(error) => {
                    return Err(EvaluationError::from(error));
                },
            };
            let named = match encode_named_nodes(&store, dataset.named.as_slice()) {
                Ok(named) => named,
                Err(error) => {
                    return Err(EvaluationError::from(error));
                },
            };
            Some(EncodedDatasetSpec { default, named })
        };
        Ok(DatasetView { store, extra: Interner::new(), default_graph_as_union, dataset })
    }
}

impl<S: ReadableEncodedStore> DatasetView<S> {
    /// The store behind the view.
    pub closed spec fn persistent(&self) -> S {
        self.store
    }

    /// The strings that the evaluation made up, each at the position that is
    /// its key.
    pub closed spec fn interned(&self) -> Seq<Seq<char>> {
        self.extra@
    }

    /// Whether asking for the default graph also asks for every named graph.
    pub closed spec fn union_mode(&self) -> bool {
        self.default_graph_as_union
    }

    /// The restriction to the graphs of a dataset, if there is one.
    pub closed spec fn restriction(&self) -> Option<EncodedDatasetSpec<S::StrId>> {
        self.dataset
    }

    /// No made-up string is held twice, and none is without a key.
    pub open spec fn wf(&self) -> bool {
        is_table(self.interned())
    }

    /// Whether a key is left for `value` among the made-up strings, should it
    /// need one.
    pub open spec fn has_room_for(&self, value: Seq<char>) -> bool {
        self.interned().contains(value) || self.interned().len() < MAX_INTERNED
    }

    /// Whether `quads` is what the view may hand out for a pattern that the
    /// store can take, under the rules of the dataset alone: the scans that
    /// [`crate::graphs::graph_scans`] names were made, and `quads` is what
    /// [`crate::graphs::assembled`] makes of what they gave.
    pub open spec fn yields_in_dataset(
        &self,
        subject: Option<EncodedTerm<S::StrId>>,
        predicate: Option<EncodedTerm<S::StrId>>,
        object: Option<EncodedTerm<S::StrId>>,
        graph_name: Option<EncodedTerm<S::StrId>>,
        quads: Seq<ViewItem<S::StrId, S::Error>>,
    ) -> bool {
        exists|scans: Seq<Seq<StoreItem<S::StrId, S::Error>>>|
            {
                &&& #[trigger] scanned(
                    self.persistent(),
                    subject,
                    predicate,
                    object,
                    graph_scans(self.restriction(), graph_name),
                    scans,
                )
                &&& quads == assembled(graph_scans(self.restriction(), graph_name), scans)
            }
    }

    /// The scans of the store that answer a pattern whose graph position is
    /// `graph_name`, in the order in which they are made: those of the
    /// dataset's rules, for the default graph and then for an open graph
    /// position where the default graph is asked for and stands for the
    /// union.
    pub open spec fn scans_for_graph(
        &self,
        graph_name: Option<EncodedTerm<S::StrId>>,
    ) -> Seq<GraphScan<S::StrId>> {
        if self.union_mode() && graph_name == Some(EncodedTerm::<S::StrId>::DefaultGraph) {
            graph_scans(self.restriction(), graph_name) + graph_scans(self.restriction(), None)
        } else {
            graph_scans(self.restriction(), graph_name)
        }
    }

    /// The scans of the store that answer a pattern: none for a pattern that
    /// the store cannot take, and else those for its graph position.
    pub open spec fn scans_for(
        &self,
        subject: Option<EncodedTerm<DatasetStrId<S::StrId>>>,
        predicate: Option<EncodedTerm<DatasetStrId<S::StrId>>>,
        object: Option<EncodedTerm<DatasetStrId<S::StrId>>>,
        graph_name: Option<EncodedTerm<DatasetStrId<S::StrId>>>,
    ) -> Seq<GraphScan<S::StrId>> {
        match store_pattern(subject, predicate, object, graph_name) {
            None => Seq::empty(),
            Some((_, _, _, g)) => self.scans_for_graph(g),
        }
    }

    /// The store behind the view.
    pub fn store(&self) -> (store: &S)
        ensures
            *store == self.persistent(),
    {
        &self.store
    }

    /// Whether asking for the default graph also asks for every named graph.
    pub fn default_graph_as_union(&self) -> (flag: bool)
        ensures
            flag == self.union_mode(),
    {
        self.default_graph_as_union
    }

    /// The restriction to the graphs of a dataset, if there is one.
    pub fn dataset(&self) -> (dataset: &Option<EncodedDatasetSpec<S::StrId>>)
        ensures
            *dataset == self.restriction(),
    {
        &self.dataset
    }

    /// The number of strings that the evaluation has made up.
    pub fn temporary_len(&self) -> (len: usize)
        ensures
            len == self.interned().len(),
    {
        self.extra.len()
    }

    /// Decides which scans of the store answer a pattern whose graph position
    /// is `graph_name`, for a caller that makes the scans itself.
    pub fn select_scans(&self, graph_name: Option<EncodedTerm<S::StrId>>) -> (scans: Vec<
        GraphScan<S::StrId>,
    >)
        ensures
            scans@ == self.scans_for_graph(graph_name),
    {
        let union = self.default_graph_as_union && match &graph_name {
            Some(graph) => graph.is_default_graph(),
            None => false,
        };
        let mut scans = select_graphs(&self.dataset, graph_name);
        if union {
            let mut open = select_graphs(&self.dataset, None);
            scans.append(&mut open);
        }
        scans
    }

    /// The quads that match a pattern of the store's own terms, under the
    /// rules of the dataset: one scan of the store for each graph that
    /// [`crate::graphs::graph_scans`] names, in that order, each made with
    /// the pattern's subject, predicate and object.
    pub fn encoded_quads_for_pattern_in_dataset(
        &self,
        subject: Option<EncodedTerm<S::StrId>>,
        predicate: Option<EncodedTerm<S::StrId>>,
        object: Option<EncodedTerm<S::StrId>>,
        graph_name: Option<EncodedTerm<S::StrId>>,
    ) -> (quads: Vec<ViewItem<S::StrId, S::Error>>)
        ensures
            self.yields_in_dataset(subject, predicate, object, graph_name, quads@),
    {
        let plan = select_graphs(&self.dataset, graph_name);
        let mut quads: Vec<ViewItem<S::StrId, S::Error>> = Vec::new();
        let ghost mut scans: Seq<Seq<StoreItem<S::StrId, S::Error>>> = Seq::empty();
        let mut i: usize = 0;
        proof {
            assert(plan@.take(0) =~= Seq::empty());
            assert(Seq::new(
                0,
                |i: int| scan_in_view(plan@.take(0)[i].mode, scans[i]),
            ) =~= Seq::<Seq<ViewItem<S::StrId, S::Error>>>::empty());
        }
        while i < plan.len()
            invariant
                i <= plan.len(),
                scanned(self.store, subject, predicate, object, plan@.take(i as int), scans),
                quads@ == assembled(plan@.take(i as int), scans),
            decreases plan.len() - i,
        {
            let items = self.store.encoded_quads_for_pattern(
                subject,
                predicate,
                object,
                plan[i].graph_name,
            );
            let ghost done = plan@.take(i as int);
            let ghost before = scans;
            proof {
                scans = scans.push(items@);
                let next = plan@.take(i + 1);
                assert(next =~= done.push(plan@[i as int]));
                assert(Seq::new(
                    next.len(),
                    |j: int| scan_in_view(next[j].mode, scans[j]),
                ) =~= Seq::new(
                    done.len(),
                    |j: int| scan_in_view(done[j].mode, before[j]),
                ).push(scan_in_view(plan@[i as int].mode, items@)));
                broadcast use Seq::lemma_flatten_push;

                assert forall|j: int| 0 <= j < next.len() implies self.store.yields(
                    (subject, predicate, object, next[j].graph_name),
                    #[trigger] scans[j],
                ) by {
                    if j < done.len() {
                        assert(scans[j] == before[j]);
                    }
                }
            }
            let mut part = scan_into_view(plan[i].mode, items);
            quads.append(&mut part);
            i += 1;
        }
        proof {
            assert(plan@.take(plan@.len() as int) =~= plan@);
            assert(scanned(
                self.persistent(),
                subject,
                predicate,
                object,
                graph_scans(self.restriction(), graph_name),
                scans,
            ));
        }
        quads
    }

    /// Gives `value` an identifier when the store has said `known` about it.
    /// See [`inserted`].
    pub fn insert_known_str(
        &mut self,
        value: &str,
        known: Result<Option<S::StrId>, S::Error>,
    ) -> (r: Result<DatasetStrId<S::StrId>, EvaluationError<S::Error>>)
        requires
            old(self).wf(),
            known == Ok::<Option<S::StrId>, S::Error>(None) ==> old(self).has_room_for(value@),
        ensures
            final(self).wf(),
            final(self).persistent() == old(self).persistent(),
            final(self).union_mode() == old(self).union_mode(),
            final(self).restriction() == old(self).restriction(),
            (r, final(self).interned()) == inserted(old(self).interned(), value@, known),
    {
        match known {
            Ok(Some(id)) => Ok(DatasetStrId::Store(id)),
            Ok(None) => Ok(DatasetStrId::Temporary(self.extra.intern(value))),
            Err(error) => Err(EvaluationError::from(error)),
        }
    }

    /// An identifier for `value`, to have or to make: the store is asked
    /// first, and only a string that it does not know is made up here.
    pub fn insert_str(&mut self, value: &str) -> (r: Result<
        DatasetStrId<S::StrId>,
        EvaluationError<S::Error>,
    >)
        requires
            old(self).wf(),
            old(self).has_room_for(value@),
        ensures
            final(self).wf(),
            final(self).persistent() == old(self).persistent(),
            final(self).union_mode() == old(self).union_mode(),
            final(self).restriction() == old(self).restriction(),
            exists|known: Result<Option<S::StrId>, S::Error>|
                #[trigger] old(self).persistent().gives_str_id(value@, known) && (
                    r,
                    final(self).interned(),
                ) == inserted(old(self).interned(), value@, known),
    {
        let known = self.store.get_str_id(value);
        self.insert_known_str(value, known)
    }

    /// As [`Self::insert_str`], for a caller that does not know whether a key
    /// is left: `None`, and nothing done, when `value` has no key and every
    /// key is taken.
    pub fn try_insert_str(&mut self, value: &str) -> (r: Option<
        Result<DatasetStrId<S::StrId>, EvaluationError<S::Error>>,
    >)
        requires
            old(self).wf(),
        ensures
            final(self).wf(),
            final(self).persistent() == old(self).persistent(),
            final(self).union_mode() == old(self).union_mode(),
            final(self).restriction() == old(self).restriction(),
            match r {
                Some(r) => old(self).has_room_for(value@) && exists|
                    known: Result<Option<S::StrId>, S::Error>,
                |
                    #[trigger] old(self).persistent().gives_str_id(value@, known) && (
                        r,
                        final(self).interned(),
                    ) == inserted(old(self).interned(), value@, known),
                None => !old(self).has_room_for(value@) && final(self).interned() == old(
                    self,
                ).interned(),
            },
    {
        if self.extra.len() < MAX_INTERNED || self.extra.get(value).is_some() {
            Some(self.insert_str(value))
        } else {
            None
        }
    }
}

impl<S: ReadableEncodedStore> ReadableEncodedStore for DatasetView<S> {
    type StrId = DatasetStrId<S::StrId>;

    type Error = EvaluationError<S::Error>;

    /// The store is asked about its own identifiers and its answer is handed
    /// on. The made-up strings are looked through for the others, which
    /// cannot fail.
    open spec fn gives_str(
        &self,
        id: DatasetStrId<S::StrId>,
        answer: Result<Option<String>, EvaluationError<S::Error>>,
    ) -> bool {
        match id {
            DatasetStrId::Store(id) => exists|known: Result<Option<String>, S::Error>|
                #[trigger] self.persistent().gives_str(id, known) && answer == str_in_view(known),
            DatasetStrId::Temporary(key) => match answer {
                Ok(Some(value)) => string_at(self.interned(), key) == Some(value@),
                Ok(None) => string_at(self.interned(), key) is None,
                Err(_) => false,
            },
        }
    }

    /// A made-up string has its key, and the store is not asked about it. Of
    /// any other string the store's answer is handed on.
    open spec fn gives_str_id(
        &self,
        value: Seq<char>,
        answer: Result<Option<DatasetStrId<S::StrId>>, EvaluationError<S::Error>>,
    ) -> bool {
        match answer {
            Ok(Some(DatasetStrId::Temporary(key))) => string_at(self.interned(), key) == Some(
                value,
            ),
            _ => !self.interned().contains(value) && exists|
                known: Result<Option<S::StrId>, S::Error>,
            | #[trigger]
                self.persistent().gives_str_id(value, known) && answer == str_id_in_view(known),
        }
    }

    /// A pattern that the store cannot take has no quads. Where the default
    /// graph stands for the union of all graphs and the pattern asks for the
    /// default graph, the answer for the default graph comes first and the
    /// answer for an open graph position behind it, with nothing taken out.
    /// Every other pattern is answered under the rules of the dataset.
    open spec fn yields(
        &self,
        pattern: QuadPattern<DatasetStrId<S::StrId>>,
        items: Seq<ViewItem<S::StrId, S::Error>>,
    ) -> bool {
        match store_pattern(pattern.0, pattern.1, pattern.2, pattern.3) {
            None => items == Seq::<ViewItem<S::StrId, S::Error>>::empty(),
            Some((s, p, o, g)) => if self.union_mode() && g == Some(
                EncodedTerm::<S::StrId>::DefaultGraph,
            ) {
                exists|
                    first: Seq<ViewItem<S::StrId, S::Error>>,
                    second: Seq<ViewItem<S::StrId, S::Error>>,
                |
                    {
                        &&& #[trigger] self.yields_in_dataset(s, p, o, g, first)
                        &&& #[trigger] self.yields_in_dataset(s, p, o, None, second)
                        &&& items == first + second
                    }
            } else {
                self.yields_in_dataset(s, p, o, g, items)
            },
        }
    }

    /// The string that `id` stands for, if there is one.
    fn get_str(&self, id: DatasetStrId<S::StrId>) -> (answer: Result<
        Option<String>,
        EvaluationError<S::Error>,
    >) {
        match id {
            DatasetStrId::Store(id) => {
                let known = self.store.get_str(id);
                assert(self.persistent().gives_str(id, known));
                match known {
                    Ok(found) => Ok(found),
                    Err(error) => Err(EvaluationError::from(error)),
                }
            },
            DatasetStrId::Temporary(key) => Ok(self.extra.resolve(key)),
        }
    }

    /// The identifier of `value`, if it has one: its key among the made-up
    /// strings where it is one of them, and else what the store has for it.
    fn get_str_id(&self, value: &str) -> (answer: Result<
        Option<DatasetStrId<S::StrId>>,
        EvaluationError<S::Error>,
    >) {
        match self.extra.get(value) {
            Some(key) => Ok(Some(DatasetStrId::Temporary(key))),
            None => {
                let known = self.store.get_str_id(value);
                assert(self.persistent().gives_str_id(value@, known));
                match known {
                    Ok(Some(id)) => Ok(Some(DatasetStrId::Store(id))),
                    Ok(None) => Ok(None),
                    Err(error) => Err(EvaluationError::from(error)),
                }
            },
        }
    }

    /// The quads that match the pattern, in the order in which the scans of
    /// the store gave them.
    fn encoded_quads_for_pattern(
        &self,
        subject: Option<EncodedTerm<DatasetStrId<S::StrId>>>,
        predicate: Option<EncodedTerm<DatasetStrId<S::StrId>>>,
        object: Option<EncodedTerm<DatasetStrId<S::StrId>>>,
        graph_name: Option<EncodedTerm<DatasetStrId<S::StrId>>>,
    ) -> (items: Vec<ViewItem<S::StrId, S::Error>>) {
        match try_map_quad_pattern(subject, predicate, object, graph_name) {
            Some((subject, predicate, object, graph_name)) => {
                let union = self.default_graph_as_union && match &graph_name {
                    Some(graph) => graph.is_default_graph(),
                    None => false,
                };
                if union {
                    let mut quads = self.encoded_quads_for_pattern_in_dataset(
                        subject,
                        predicate,
                        object,
                        Some(EncodedTerm::DefaultGraph),
                    );
                    let mut named = self.encoded_quads_for_pattern_in_dataset(
                        subject,
                        predicate,
                        object,
                        None,
                    );
                    quads.append(&mut named);
                    quads
                } else {
                    self.encoded_quads_for_pattern_in_dataset(
                        subject,
                        predicate,
                        object,
                        graph_name,
                    )
                }
            },
            None => Vec::new(),
        }
    }
}

} // verus!
