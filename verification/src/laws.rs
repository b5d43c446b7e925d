//! What holds of every view, whatever store stands behind it.

use crate::dataset::{inserted, str_id_in_view, DatasetView};
use crate::encoded::{EncodedTerm, StrId};
use crate::error::EvaluationError;
use crate::graphs::{
    assembled, each_graph_scanned, graph_scans, lemma_assembled_concat, lemma_assembled_none,
    lemma_assembled_one, lemma_hidden_default_graph, lemma_two_scans_in_view,
    outside_default_graph, plain_scan, relabelled, scan_in_view, scan_item_in_view, scanned,
    scans_in_view, GraphScan, ScanMode,
};
use crate::interner::{
    after_intern, is_table, key_of, lemma_intern_keeps_distinct, lemma_key_is_position,
    lemma_looked_up, looked_up, string_at, MAX_INTERNED,
};
use crate::restriction::{asked_in_turn, found_terms, list_resolved, resolved};
use crate::store::{Encoding, QuadPattern, ReadableEncodedStore, StoreItem};
use crate::str_id::{
    bound_to_temporary, item_in_view, items_in_view, lemma_in_store, lemma_store_pattern,
    store_pattern, DatasetStrId, ViewItem,
};
use vstd::prelude::*;

verus! {

/// What a view hands out for a pattern is what it makes of the scans that
/// [`DatasetView::scans_for`] names, and of nothing else: it makes those
/// scans, each with the subject, predicate and object of the pattern, and
/// hands their quads out in that order.
pub proof fn law_quads_come_from_the_scans<S: ReadableEncodedStore>(
    view: DatasetView<S>,
    subject: Option<EncodedTerm<DatasetStrId<S::StrId>>>,
    predicate: Option<EncodedTerm<DatasetStrId<S::StrId>>>,
    object: Option<EncodedTerm<DatasetStrId<S::StrId>>>,
    graph_name: Option<EncodedTerm<DatasetStrId<S::StrId>>>,
    quads: Seq<ViewItem<S::StrId, S::Error>>,
)
    ensures
        view.yields((subject, predicate, object, graph_name), quads)
            <==> match store_pattern(subject, predicate, object, graph_name) {
            None => quads == Seq::<ViewItem<S::StrId, S::Error>>::empty(),
            Some((s, p, o, _)) => exists|scans: Seq<Seq<StoreItem<S::StrId, S::Error>>>|
                {
                    &&& #[trigger] scanned(
                        view.persistent(),
                        s,
                        p,
                        o,
                        view.scans_for(subject, predicate, object, graph_name),
                        scans,
                    )
                    &&& quads == assembled(
                        view.scans_for(subject, predicate, object, graph_name),
                        scans,
                    )
                },
        },
{
    let plan = view.scans_for(subject, predicate, object, graph_name);
    if let Some((s, p, o, g)) = store_pattern(subject, predicate, object, graph_name) {
        if view.union_mode() && g == Some(EncodedTerm::<S::StrId>::DefaultGraph) {
            let first_plan = graph_scans(view.restriction(), g);
            let second_plan = graph_scans(view.restriction(), None);
            if view.yields((subject, predicate, object, graph_name), quads) {
                let (first, second) = choose|
                    first: Seq<ViewItem<S::StrId, S::Error>>,
                    second: Seq<ViewItem<S::StrId, S::Error>>,
                |
                    {
                        &&& #[trigger] view.yields_in_dataset(s, p, o, g, first)
                        &&& #[trigger] view.yields_in_dataset(s, p, o, None, second)
                        &&& quads == first + second
                    };
                let first_scans = choose|scans: Seq<Seq<StoreItem<S::StrId, S::Error>>>|
                    {
                        &&& #[trigger] scanned(view.persistent(), s, p, o, first_plan, scans)
                        &&& first == assembled(first_plan, scans)
                    };
                let second_scans = choose|scans: Seq<Seq<StoreItem<S::StrId, S::Error>>>|
                    {
                        &&& #[trigger] scanned(view.persistent(), s, p, o, second_plan, scans)
                        &&& second == assembled(second_plan, scans)
                    };
                lemma_assembled_concat(first_plan, first_scans, second_plan, second_scans);
                assert(scanned(view.persistent(), s, p, o, plan, first_scans + second_scans));
            }
            if exists|scans: Seq<Seq<StoreItem<S::StrId, S::Error>>>|
                {
                    &&& #[trigger] scanned(view.persistent(), s, p, o, plan, scans)
                    &&& quads == assembled(plan, scans)
                } {
                let scans = choose|scans: Seq<Seq<StoreItem<S::StrId, S::Error>>>|
                    {
                        &&& #[trigger] scanned(view.persistent(), s, p, o, plan, scans)
                        &&& quads == assembled(plan, scans)
                    };
                let n = first_plan.len() as int;
                let first_scans = scans.take(n);
                let second_scans = scans.skip(n);
                assert(scans =~= first_scans + second_scans);
                lemma_assembled_concat(first_plan, first_scans, second_plan, second_scans);
                assert(scanned(view.persistent(), s, p, o, first_plan, first_scans));
                assert forall|i: int| 0 <= i < second_plan.len() implies view.persistent().yields(
                    (s, p, o, second_plan[i].graph_name),
                    #[trigger] second_scans[i],
                ) by {
                    assert(second_scans[i] == scans[n + i]);
                    assert(plan[n + i] == second_plan[i]);
                }
                assert(scanned(view.persistent(), s, p, o, second_plan, second_scans));
                assert(view.yields_in_dataset(s, p, o, g, assembled(first_plan, first_scans)));
                assert(view.yields_in_dataset(s, p, o, None, assembled(second_plan, second_scans)));
            }
        }
    }
}

/// A scan can be taken item by item: what a view hands out for a scan that
/// gave one more item is what it handed out before, and behind it what it
/// makes of that item, if anything.
pub proof fn law_scan_can_be_taken_by_item<I: StrId, E>(
    mode: ScanMode,
    items: Seq<StoreItem<I, E>>,
    item: StoreItem<I, E>,
)
    ensures
        scan_in_view(mode, items.push(item)) == match scan_item_in_view(mode, item) {
            Some(seen) => scan_in_view(mode, items).push(seen),
            None => scan_in_view(mode, items),
        },
        scan_in_view(mode, Seq::<StoreItem<I, E>>::empty()) == Seq::<ViewItem<I, E>>::empty(),
{
    reveal(Seq::filter);
    let seen = items_in_view(items);
    let more = items_in_view(items.push(item));
    assert(more =~= seen.push(item_in_view(item)));
    assert(more.drop_last() =~= seen);
    assert(more.map_values(|item: ViewItem<I, E>| relabelled(item)) =~= seen.map_values(
        |item: ViewItem<I, E>| relabelled(item),
    ).push(relabelled(item_in_view(item))));
    let none = items_in_view(Seq::<StoreItem<I, E>>::empty());
    assert(none =~= Seq::<ViewItem<I, E>>::empty());
    assert(none.map_values(|item: ViewItem<I, E>| relabelled(item)) =~= Seq::<
        ViewItem<I, E>,
    >::empty());
}

/// A pattern in which a bound position holds an identifier that the store
/// never gave out has no quads, and the view makes no scan of the store for
/// it.
pub proof fn law_temporary_matches_nothing<S: ReadableEncodedStore>(
    view: DatasetView<S>,
    subject: Option<EncodedTerm<DatasetStrId<S::StrId>>>,
    predicate: Option<EncodedTerm<DatasetStrId<S::StrId>>>,
    object: Option<EncodedTerm<DatasetStrId<S::StrId>>>,
    graph_name: Option<EncodedTerm<DatasetStrId<S::StrId>>>,
    quads: Seq<ViewItem<S::StrId, S::Error>>,
)
    requires
        bound_to_temporary(subject) || bound_to_temporary(predicate) || bound_to_temporary(object)
            || bound_to_temporary(graph_name),
    ensures
        view.scans_for(subject, predicate, object, graph_name).len() == 0,
        view.yields((subject, predicate, object, graph_name), quads) <==> quads.len() == 0,
{
    lemma_store_pattern(subject, predicate, object, graph_name);
    if quads.len() == 0 {
        assert(quads =~= Seq::<ViewItem<S::StrId, S::Error>>::empty());
    }
}

/// Without a restriction, a pattern that leaves the graph open is answered by
/// one scan of all graphs, from which the quads of the default graph are
/// dropped and nothing else: no quad of the default graph is handed out.
pub proof fn law_open_graph_hides_default_graph<S: ReadableEncodedStore>(
    view: DatasetView<S>,
    subject: Option<EncodedTerm<S::StrId>>,
    predicate: Option<EncodedTerm<S::StrId>>,
    object: Option<EncodedTerm<S::StrId>>,
    quads: Seq<ViewItem<S::StrId, S::Error>>,
)
    requires
        view.restriction() is None,
    ensures
        view.yields_in_dataset(subject, predicate, object, None, quads) <==> exists|
            items: Seq<StoreItem<S::StrId, S::Error>>,
        |
            {
                &&& #[trigger] view.persistent().yields((subject, predicate, object, None), items)
                &&& quads == items_in_view(items).filter(
                    |item: ViewItem<S::StrId, S::Error>| outside_default_graph(item),
                )
            },
        view.yields_in_dataset(subject, predicate, object, None, quads) ==> forall|i: int|
            0 <= i < quads.len() ==> match #[trigger] quads[i] {
                Ok(quad) => quad.graph_name != EncodedTerm::<DatasetStrId<S::StrId>>::DefaultGraph,
                Err(_) => true,
            },
{
    let scan = GraphScan::<S::StrId> { graph_name: None, mode: ScanMode::HideDefault };
    let plan = graph_scans(view.restriction(), None::<EncodedTerm<S::StrId>>);
    assert(plan =~= seq![scan]);
    if view.yields_in_dataset(subject, predicate, object, None, quads) {
        let scans = choose|scans: Seq<Seq<StoreItem<S::StrId, S::Error>>>|
            {
                &&& #[trigger] scanned(view.persistent(), subject, predicate, object, plan, scans)
                &&& quads == assembled(plan, scans)
            };
        assert(scans =~= seq![scans[0]]);
        lemma_assembled_one(scan, scans[0]);
        assert(view.persistent().yields(
            (subject, predicate, object, plan[0].graph_name),
            scans[0],
        ));
        assert forall|i: int| 0 <= i < quads.len() implies match #[trigger] quads[i] {
            Ok(quad) => quad.graph_name != EncodedTerm::<DatasetStrId<S::StrId>>::DefaultGraph,
            Err(_) => true,
        } by {
            lemma_hidden_default_graph(scans[0], i);
        }
    }
    if exists|items: Seq<StoreItem<S::StrId, S::Error>>|
        {
            &&& #[trigger] view.persistent().yields((subject, predicate, object, None), items)
            &&& quads == items_in_view(items).filter(
                |item: ViewItem<S::StrId, S::Error>| outside_default_graph(item),
            )
        } {
        let items = choose|items: Seq<StoreItem<S::StrId, S::Error>>|
            {
                &&& #[trigger] view.persistent().yields((subject, predicate, object, None), items)
                &&& quads == items_in_view(items).filter(
                    |item: ViewItem<S::StrId, S::Error>| outside_default_graph(item),
                )
            };
        lemma_assembled_one(scan, items);
        assert(scanned(view.persistent(), subject, predicate, object, plan, seq![items]));
    }
}

/// Where one scan of graph `graph` answers a pattern and its quads are handed
/// on as they are, the view hands out what the store's own scan for that
/// graph gives, quad for quad and failure for failure.
proof fn lemma_one_plain_scan<S: ReadableEncodedStore>(
    view: DatasetView<S>,
    subject: Option<EncodedTerm<S::StrId>>,
    predicate: Option<EncodedTerm<S::StrId>>,
    object: Option<EncodedTerm<S::StrId>>,
    graph: EncodedTerm<S::StrId>,
    quads: Seq<ViewItem<S::StrId, S::Error>>,
)
    requires
        graph_scans(view.restriction(), Some(graph)) == seq![plain_scan(graph)],
    ensures
        view.yields_in_dataset(subject, predicate, object, Some(graph), quads) <==> exists|
            items: Seq<StoreItem<S::StrId, S::Error>>,
        |
            {
                &&& #[trigger] view.persistent().yields(
                    (subject, predicate, object, Some(graph)),
                    items,
                )
                &&& quads == items_in_view(items)
            },
{
    let scan = plain_scan(graph);
    let plan = graph_scans(view.restriction(), Some(graph));
    if view.yields_in_dataset(subject, predicate, object, Some(graph), quads) {
        let scans = choose|scans: Seq<Seq<StoreItem<S::StrId, S::Error>>>|
            {
                &&& #[trigger] scanned(view.persistent(), subject, predicate, object, plan, scans)
                &&& quads == assembled(plan, scans)
            };
        assert(scans =~= seq![scans[0]]);
        lemma_assembled_one(scan, scans[0]);
        assert(view.persistent().yields(
            (subject, predicate, object, plan[0].graph_name),
            scans[0],
        ));
    }
    if exists|items: Seq<StoreItem<S::StrId, S::Error>>|
        {
            &&& #[trigger] view.persistent().yields(
                (subject, predicate, object, Some(graph)),
                items,
            )
            &&& quads == items_in_view(items)
        } {
        let items = choose|items: Seq<StoreItem<S::StrId, S::Error>>|
            {
                &&& #[trigger] view.persistent().yields(
                    (subject, predicate, object, Some(graph)),
                    items,
                )
                &&& quads == items_in_view(items)
            };
        lemma_assembled_one(scan, items);
        assert(scanned(view.persistent(), subject, predicate, object, plan, seq![items]));
    }
}

/// Without a restriction, a pattern whose graph is bound, be it to the
/// default graph, is answered by the store's own scan for that graph, with
/// nothing taken out.
pub proof fn law_bound_graph_is_scanned_directly<S: ReadableEncodedStore>(
    view: DatasetView<S>,
    subject: Option<EncodedTerm<S::StrId>>,
    predicate: Option<EncodedTerm<S::StrId>>,
    object: Option<EncodedTerm<S::StrId>>,
    graph: EncodedTerm<S::StrId>,
    quads: Seq<ViewItem<S::StrId, S::Error>>,
)
    requires
        view.restriction() is None,
    ensures
        view.yields_in_dataset(subject, predicate, object, Some(graph), quads) <==> exists|
            items: Seq<StoreItem<S::StrId, S::Error>>,
        |
            {
                &&& #[trigger] view.persistent().yields(
                    (subject, predicate, object, Some(graph)),
                    items,
                )
                &&& quads == items_in_view(items)
            },
{
    lemma_one_plain_scan(view, subject, predicate, object, graph, quads);
}

/// The same for a pattern in the view's own terms: where the default graph
/// does not stand for the union, or the graph asked for is another, the view
/// hands out the store's own scan for the bound graph.
pub proof fn law_bound_graph_is_scanned_directly_for_pattern<S: ReadableEncodedStore>(
    view: DatasetView<S>,
    subject: Option<EncodedTerm<DatasetStrId<S::StrId>>>,
    predicate: Option<EncodedTerm<DatasetStrId<S::StrId>>>,
    object: Option<EncodedTerm<DatasetStrId<S::StrId>>>,
    graph: EncodedTerm<S::StrId>,
    quads: Seq<ViewItem<S::StrId, S::Error>>,
)
    requires
        view.restriction() is None,
        !view.union_mode() || graph != EncodedTerm::<S::StrId>::DefaultGraph,
        store_pattern(subject, predicate, object, Some(graph.in_view())) is Some,
    ensures
        ({
            let (s, p, o, _) = store_pattern(
                subject,
                predicate,
                object,
                Some(graph.in_view()),
            )->Some_0;
            view.yields((subject, predicate, object, Some(graph.in_view())), quads) <==> exists|
                items: Seq<StoreItem<S::StrId, S::Error>>,
            |
                {
                    &&& #[trigger] view.persistent().yields((s, p, o, Some(graph)), items)
                    &&& quads == items_in_view(items)
                }
        }),
{
    let (s, p, o, g) = store_pattern(subject, predicate, object, Some(graph.in_view()))->Some_0;
    lemma_in_store(graph.in_view());
    assert(g == Some(graph));
    lemma_one_plain_scan(view, s, p, o, graph, quads);
}

/// Without a restriction, no quad of the default graph is handed out for a
/// pattern that leaves the graph open, even where the store holds such quads.
pub proof fn law_open_graph_hides_default_graph_for_pattern<S: ReadableEncodedStore>(
    view: DatasetView<S>,
    subject: Option<EncodedTerm<DatasetStrId<S::StrId>>>,
    predicate: Option<EncodedTerm<DatasetStrId<S::StrId>>>,
    object: Option<EncodedTerm<DatasetStrId<S::StrId>>>,
    quads: Seq<ViewItem<S::StrId, S::Error>>,
)
    requires
        view.restriction() is None,
        view.yields((subject, predicate, object, None), quads),
    ensures
        forall|i: int|
            0 <= i < quads.len() ==> match #[trigger] quads[i] {
                Ok(quad) => quad.graph_name != EncodedTerm::<DatasetStrId<S::StrId>>::DefaultGraph,
                Err(_) => true,
            },
{
    if let Some((s, p, o, g)) = store_pattern(subject, predicate, object, None) {
        law_open_graph_hides_default_graph(view, s, p, o, quads);
    }
}

/// One scan for each graph of a list, all treated alike: what the view hands
/// out is what it makes of the scans of the graphs, one after another.
proof fn lemma_one_scan_for_each_graph<S: ReadableEncodedStore>(
    store: S,
    subject: Option<EncodedTerm<S::StrId>>,
    predicate: Option<EncodedTerm<S::StrId>>,
    object: Option<EncodedTerm<S::StrId>>,
    graphs: Seq<EncodedTerm<S::StrId>>,
    mode: ScanMode,
    plan: Seq<GraphScan<S::StrId>>,
    scans: Seq<Seq<StoreItem<S::StrId, S::Error>>>,
)
    requires
        plan.len() == graphs.len(),
        forall|i: int|
            0 <= i < plan.len() ==> #[trigger] plan[i] == (GraphScan {
                graph_name: Some(graphs[i]),
                mode,
            }),
    ensures
        scanned(store, subject, predicate, object, plan, scans) == each_graph_scanned(
            store,
            subject,
            predicate,
            object,
            graphs,
            scans,
        ),
        scans.len() == graphs.len() ==> assembled(plan, scans) == scans_in_view(mode, scans),
{
    if scanned(store, subject, predicate, object, plan, scans) {
        assert forall|i: int| 0 <= i < graphs.len() implies store.yields(
            (subject, predicate, object, Some(graphs[i])),
            #[trigger] scans[i],
        ) by {
            assert(plan[i].graph_name == Some(graphs[i]));
        }
    }
    if each_graph_scanned(store, subject, predicate, object, graphs, scans) {
        assert forall|i: int| 0 <= i < plan.len() implies store.yields(
            (subject, predicate, object, plan[i].graph_name),
            #[trigger] scans[i],
        ) by {
            assert(plan[i].graph_name == Some(graphs[i]));
        }
    }
    if scans.len() == graphs.len() {
        let parts = Seq::new(plan.len(), |i: int| scan_in_view(plan[i].mode, scans[i]));
        assert(parts =~= Seq::new(scans.len(), |i: int| scan_in_view(mode, scans[i])));
    }
}

/// With a restriction, the default graph is the graphs of the restriction's
/// first list: each is scanned, in the order of the list, and each quad found
/// is handed out as a quad of the default graph.
pub proof fn law_default_graph_is_the_default_list<S: ReadableEncodedStore>(
    view: DatasetView<S>,
    subject: Option<EncodedTerm<S::StrId>>,
    predicate: Option<EncodedTerm<S::StrId>>,
    object: Option<EncodedTerm<S::StrId>>,
    quads: Seq<ViewItem<S::StrId, S::Error>>,
)
    requires
        view.restriction() is Some,
    ensures
        view.yields_in_dataset(
            subject,
            predicate,
            object,
            Some(EncodedTerm::DefaultGraph),
            quads,
        ) <==> exists|scans: Seq<Seq<StoreItem<S::StrId, S::Error>>>|
            {
                &&& #[trigger] each_graph_scanned(
                    view.persistent(),
                    subject,
                    predicate,
                    object,
                    view.restriction()->Some_0.default@,
                    scans,
                )
                &&& quads == scans_in_view(ScanMode::Relabel, scans)
            },
{
    let graphs = view.restriction()->Some_0.default@;
    let plan = graph_scans(view.restriction(), Some(EncodedTerm::<S::StrId>::DefaultGraph));
    assert forall|scans: Seq<Seq<StoreItem<S::StrId, S::Error>>>|
        scanned(view.persistent(), subject, predicate, object, plan, scans) == each_graph_scanned(
            view.persistent(),
            subject,
            predicate,
            object,
            graphs,
            scans,
        ) && (scans.len() == graphs.len() ==> assembled(plan, scans) == scans_in_view(
            ScanMode::Relabel,
            scans,
        )) by {
        lemma_one_scan_for_each_graph(
            view.persistent(),
            subject,
            predicate,
            object,
            graphs,
            ScanMode::Relabel,
            plan,
            scans,
        );
    }
}

/// With a restriction, a pattern that leaves the graph open ranges over the
/// graphs of the restriction's second list and over no other: each is
/// scanned, in the order of the list, and its quads are handed out as they
/// are. The first list is not looked at.
pub proof fn law_open_graph_ranges_over_named_graphs<S: ReadableEncodedStore>(
    view: DatasetView<S>,
    subject: Option<EncodedTerm<S::StrId>>,
    predicate: Option<EncodedTerm<S::StrId>>,
    object: Option<EncodedTerm<S::StrId>>,
    quads: Seq<ViewItem<S::StrId, S::Error>>,
)
    requires
        view.restriction() is Some,
    ensures
        view.yields_in_dataset(subject, predicate, object, None, quads) <==> exists|
            scans: Seq<Seq<StoreItem<S::StrId, S::Error>>>,
        |
            {
                &&& #[trigger] each_graph_scanned(
                    view.persistent(),
                    subject,
                    predicate,
                    object,
                    view.restriction()->Some_0.named@,
                    scans,
                )
                &&& quads == scans_in_view(ScanMode::Plain, scans)
            },
{
    let graphs = view.restriction()->Some_0.named@;
    let plan = graph_scans(view.restriction(), None::<EncodedTerm<S::StrId>>);
    assert forall|scans: Seq<Seq<StoreItem<S::StrId, S::Error>>>|
        scanned(view.persistent(), subject, predicate, object, plan, scans) == each_graph_scanned(
            view.persistent(),
            subject,
            predicate,
            object,
            graphs,
            scans,
        ) && (scans.len() == graphs.len() ==> assembled(plan, scans) == scans_in_view(
            ScanMode::Plain,
            scans,
        )) by {
        lemma_one_scan_for_each_graph(
            view.persistent(),
            subject,
            predicate,
            object,
            graphs,
            ScanMode::Plain,
            plan,
            scans,
        );
    }
}

/// With a restriction whose first list is the two graphs `first` and
/// `second`, the default graph is what the scan of `first` gives and then
/// what the scan of `second` gives, each quad as a quad of the default graph.
pub proof fn law_default_graph_of_two<S: ReadableEncodedStore>(
    view: DatasetView<S>,
    subject: Option<EncodedTerm<S::StrId>>,
    predicate: Option<EncodedTerm<S::StrId>>,
    object: Option<EncodedTerm<S::StrId>>,
    first: EncodedTerm<S::StrId>,
    second: EncodedTerm<S::StrId>,
    quads: Seq<ViewItem<S::StrId, S::Error>>,
)
    requires
        view.restriction() is Some,
        view.restriction()->Some_0.default@ == seq![first, second],
    ensures
        view.yields_in_dataset(
            subject,
            predicate,
            object,
            Some(EncodedTerm::DefaultGraph),
            quads,
        ) <==> exists|
            from_first: Seq<StoreItem<S::StrId, S::Error>>,
            from_second: Seq<StoreItem<S::StrId, S::Error>>,
        |
            {
                &&& #[trigger] view.persistent().yields(
                    (subject, predicate, object, Some(first)),
                    from_first,
                )
                &&& #[trigger] view.persistent().yields(
                    (subject, predicate, object, Some(second)),
                    from_second,
                )
                &&& quads == scan_in_view(ScanMode::Relabel, from_first)
                    + scan_in_view(ScanMode::Relabel, from_second)
            },
{
    let graphs = seq![first, second];
    law_default_graph_is_the_default_list(view, subject, predicate, object, quads);
    if view.yields_in_dataset(subject, predicate, object, Some(EncodedTerm::DefaultGraph), quads) {
        let scans = choose|scans: Seq<Seq<StoreItem<S::StrId, S::Error>>>|
            {
                &&& #[trigger] each_graph_scanned(
                    view.persistent(),
                    subject,
                    predicate,
                    object,
                    graphs,
                    scans,
                )
                &&& quads == scans_in_view(ScanMode::Relabel, scans)
            };
        assert(scans =~= seq![scans[0], scans[1]]);
        lemma_two_scans_in_view(ScanMode::Relabel, scans[0], scans[1]);
        assert(graphs[0] == first && graphs[1] == second);
        assert(view.persistent().yields((subject, predicate, object, Some(first)), scans[0]));
        assert(view.persistent().yields((subject, predicate, object, Some(second)), scans[1]));
    }
    if exists|
        from_first: Seq<StoreItem<S::StrId, S::Error>>,
        from_second: Seq<StoreItem<S::StrId, S::Error>>,
    |
        {
            &&& #[trigger] view.persistent().yields(
                (subject, predicate, object, Some(first)),
                from_first,
            )
            &&& #[trigger] view.persistent().yields(
                (subject, predicate, object, Some(second)),
                from_second,
            )
            &&& quads == scan_in_view(ScanMode::Relabel, from_first)
                + scan_in_view(ScanMode::Relabel, from_second)
        } {
        let (a, b) = choose|
            a: Seq<StoreItem<S::StrId, S::Error>>,
            b: Seq<StoreItem<S::StrId, S::Error>>,
        |
            {
                &&& #[trigger] view.persistent().yields(
                    (subject, predicate, object, Some(first)),
                    a,
                )
                &&& #[trigger] view.persistent().yields(
                    (subject, predicate, object, Some(second)),
                    b,
                )
                &&& quads == scan_in_view(ScanMode::Relabel, a)
                    + scan_in_view(ScanMode::Relabel, b)
            };
        lemma_two_scans_in_view(ScanMode::Relabel, a, b);
        assert(each_graph_scanned(
            view.persistent(),
            subject,
            predicate,
            object,
            graphs,
            seq![a, b],
        ));
    }
}

/// With a restriction, a graph that is asked for by name and that the
/// restriction's second list does not hold has no quads and is not scanned.
pub proof fn law_graph_outside_dataset_is_empty<S: ReadableEncodedStore>(
    view: DatasetView<S>,
    subject: Option<EncodedTerm<S::StrId>>,
    predicate: Option<EncodedTerm<S::StrId>>,
    object: Option<EncodedTerm<S::StrId>>,
    graph: EncodedTerm<S::StrId>,
    quads: Seq<ViewItem<S::StrId, S::Error>>,
)
    requires
        view.restriction() is Some,
        graph != EncodedTerm::<S::StrId>::DefaultGraph,
        !view.restriction()->Some_0.named@.contains(graph),
    ensures
        graph_scans(view.restriction(), Some(graph)).len() == 0,
        view.yields_in_dataset(subject, predicate, object, Some(graph), quads) <==> quads.len()
            == 0,
{
    let plan = graph_scans(view.restriction(), Some(graph));
    assert(plan =~= Seq::empty());
    if view.yields_in_dataset(subject, predicate, object, Some(graph), quads) {
        let scans = choose|scans: Seq<Seq<StoreItem<S::StrId, S::Error>>>|
            {
                &&& #[trigger] scanned(view.persistent(), subject, predicate, object, plan, scans)
                &&& quads == assembled(plan, scans)
            };
        lemma_assembled_none(scans);
    }
    if quads.len() == 0 {
        let scans = Seq::<Seq<StoreItem<S::StrId, S::Error>>>::empty();
        lemma_assembled_none(scans);
        assert(quads =~= assembled(plan, scans));
        assert(scanned(view.persistent(), subject, predicate, object, plan, scans));
    }
}

/// With a restriction, a graph that is asked for by name and that the
/// restriction's second list holds is answered by the store's own scan for
/// that graph, and each quad keeps its graph.
pub proof fn law_graph_inside_dataset_is_scanned_directly<S: ReadableEncodedStore>(
    view: DatasetView<S>,
    subject: Option<EncodedTerm<S::StrId>>,
    predicate: Option<EncodedTerm<S::StrId>>,
    object: Option<EncodedTerm<S::StrId>>,
    graph: EncodedTerm<S::StrId>,
    quads: Seq<ViewItem<S::StrId, S::Error>>,
)
    requires
        view.restriction() is Some,
        graph != EncodedTerm::<S::StrId>::DefaultGraph,
        view.restriction()->Some_0.named@.contains(graph),
    ensures
        view.yields_in_dataset(subject, predicate, object, Some(graph), quads) <==> exists|
            items: Seq<StoreItem<S::StrId, S::Error>>,
        |
            {
                &&& #[trigger] view.persistent().yields(
                    (subject, predicate, object, Some(graph)),
                    items,
                )
                &&& quads == items_in_view(items)
            },
{
    lemma_one_plain_scan(view, subject, predicate, object, graph, quads);
}

/// Where the default graph stands for the union of all graphs, a pattern that
/// asks for the default graph is answered in two parts, in this order and
/// with nothing taken out: what the dataset's rules give for the default
/// graph, and what they give for an open graph position.
pub proof fn law_union_is_default_graph_then_open_graph<S: ReadableEncodedStore>(
    view: DatasetView<S>,
    subject: Option<EncodedTerm<DatasetStrId<S::StrId>>>,
    predicate: Option<EncodedTerm<DatasetStrId<S::StrId>>>,
    object: Option<EncodedTerm<DatasetStrId<S::StrId>>>,
    quads: Seq<ViewItem<S::StrId, S::Error>>,
)
    requires
        view.union_mode(),
        store_pattern(subject, predicate, object, Some(EncodedTerm::DefaultGraph)) is Some,
    ensures
        ({
            let (s, p, o, _) = store_pattern(
                subject,
                predicate,
                object,
                Some(EncodedTerm::DefaultGraph),
            )->Some_0;
            view.yields((subject, predicate, object, Some(EncodedTerm::DefaultGraph)), quads)
                <==> exists|
                first: Seq<ViewItem<S::StrId, S::Error>>,
                second: Seq<ViewItem<S::StrId, S::Error>>,
            |
                {
                    &&& #[trigger] view.yields_in_dataset(
                        s,
                        p,
                        o,
                        Some(EncodedTerm::DefaultGraph),
                        first,
                    )
                    &&& #[trigger] view.yields_in_dataset(s, p, o, None, second)
                    &&& quads == first + second
                }
        }),
{
    lemma_in_store(EncodedTerm::<DatasetStrId<S::StrId>>::DefaultGraph);
    assert(EncodedTerm::<S::StrId>::DefaultGraph.in_view() == EncodedTerm::<
        DatasetStrId<S::StrId>,
    >::DefaultGraph);
}

/// Asking twice for an identifier of a string that the store does not know
/// gives the same identifier twice, and the second time nothing is made up.
pub proof fn law_made_up_string_keeps_its_identifier<I: StrId, E>(
    interned: Seq<Seq<char>>,
    value: Seq<char>,
)
    requires
        is_table(interned),
        interned.contains(value) || interned.len() < MAX_INTERNED,
    ensures
        ({
            let (first, after) = inserted::<I, E>(interned, value, Ok(None));
            let (second, at_last) = inserted::<I, E>(after, value, Ok(None));
            &&& first is Ok
            &&& first->Ok_0 is Temporary
            &&& second == first
            &&& at_last == after
            &&& is_table(after)
            &&& string_at(after, first->Ok_0->Temporary_0) == Some(value)
        }),
{
    lemma_intern_keeps_distinct(interned, value);
    let after = after_intern(interned, value);
    let key = key_of(after, value);
    assert(after.contains(value));
    assert(0 <= key < after.len() && after[key] == value);
    assert(after.len() <= MAX_INTERNED);
    assert(key as usize == key);
    assert(after_intern(after, value) == after);
}

/// A string that the store knows gets the store's identifier, never a key of
/// the evaluation's own, and nothing is made up.
pub proof fn law_known_string_gets_store_identifier<I: StrId, E>(
    interned: Seq<Seq<char>>,
    value: Seq<char>,
    id: I,
)
    ensures
        inserted::<I, E>(interned, value, Ok(Some(id))) == (
            Ok::<DatasetStrId<I>, EvaluationError<E>>(DatasetStrId::Store(id)),
            interned,
        ),
{
}

/// A key that the evaluation gave out leads back to itself: the string that
/// stands for it is found again under that key and under no other, and asking
/// for an identifier of that string gives the key and makes nothing up, as
/// long as the store does not know the string.
pub proof fn law_made_up_string_round_trip<I: StrId, E>(interned: Seq<Seq<char>>, key: usize)
    requires
        is_table(interned),
        key < interned.len(),
    ensures
        string_at(interned, key) == Some(interned[key as int]),
        forall|found: Option<usize>| #[trigger]
            looked_up(interned, interned[key as int], found) <==> found == Some(key),
        inserted::<I, E>(interned, interned[key as int], Ok(None)) == (
            Ok::<DatasetStrId<I>, EvaluationError<E>>(DatasetStrId::Temporary(key)),
            interned,
        ),
{
    lemma_key_is_position(interned, key as int);
    assert forall|found: Option<usize>| #[trigger]
        looked_up(interned, interned[key as int], found) <==> found == Some(key) by {
        lemma_looked_up(interned, interned[key as int], found);
    }
}

/// An identifier of the store leads back to itself exactly where the store
/// stands by it: asking for an identifier of the string that the store gave
/// for `id` gives `id` again if the store names `id` for that string, and in
/// no other case.
pub proof fn law_store_string_round_trip<I: StrId, E>(
    interned: Seq<Seq<char>>,
    id: I,
    value: Seq<char>,
    known: Result<Option<I>, E>,
)
    ensures
        inserted(interned, value, known).0 == Ok::<
            DatasetStrId<I>,
            EvaluationError<E>,
        >(DatasetStrId::Store(id)) <==> known == Ok::<Option<I>, E>(Some(id)),
{
}

/// Looking a string up and asking for an identifier of it agree, as long as
/// the store stands by its answer. Right after a string was given a key of
/// the evaluation's own, a lookup among the made-up strings gives that key
/// and no other. Right after it was given the store's identifier, it is
/// still not among the made-up strings, so that a lookup goes to the store,
/// whose answer names that identifier.
pub proof fn law_lookup_agrees_with_insert<I: StrId, E>(
    interned: Seq<Seq<char>>,
    value: Seq<char>,
    known: Result<Option<I>, E>,
)
    requires
        is_table(interned),
        interned.contains(value) || interned.len() < MAX_INTERNED,
        known is Ok,
        known == Ok::<Option<I>, E>(None) || !interned.contains(value),
    ensures
        ({
            let (given, after) = inserted(interned, value, known);
            match given {
                Ok(DatasetStrId::Temporary(key)) => forall|found: Option<usize>| #[trigger]
                    looked_up(after, value, found) <==> found == Some(key),
                Ok(DatasetStrId::Store(id)) => !after.contains(value) && str_id_in_view(known)
                    == Ok::<Option<DatasetStrId<I>>, EvaluationError<E>>(
                    Some(DatasetStrId::Store(id)),
                ),
                Err(_) => false,
            }
        }),
{
    lemma_intern_keeps_distinct(interned, value);
    let after = after_intern(interned, value);
    if known == Ok::<Option<I>, E>(None) {
        assert forall|found: Option<usize>| #[trigger]
            looked_up(after, value, found) <==> found == Some(key_of(after, value) as usize) by {
            lemma_looked_up(after, value, found);
        }
    }
}

/// Of a store that does not fail and that has one answer for each term, the
/// terms that go into a restriction are those that the store knows, in the
/// order in which they were named, each as often as it was named.
pub proof fn law_restriction_keeps_known_terms_in_order<T, I: StrId, E>(
    terms: Seq<T>,
    may: spec_fn(T, Encoding<I, E>) -> bool,
    known: spec_fn(T) -> Option<EncodedTerm<I>>,
    outcome: Result<Seq<EncodedTerm<I>>, E>,
)
    requires
        forall|term: T, answer: Encoding<I, E>| #[trigger]
            may(term, answer) ==> answer == Ok::<Option<EncodedTerm<I>>, E>(known(term)),
        list_resolved(terms, may, outcome),
    ensures
        outcome == Ok::<Seq<EncodedTerm<I>>, E>(
            found_terms(terms.map_values(|term: T| Ok::<Option<EncodedTerm<I>>, E>(known(term)))),
        ),
{
    let answers = choose|answers: Seq<Encoding<I, E>>| #[trigger]
        asked_in_turn(terms, may, answers) && outcome
            == resolved(answers);
    assert forall|i: int| 0 <= i < answers.len() implies answers[i] == Ok::<
        Option<EncodedTerm<I>>,
        E,
    >(known(terms[i])) by {
        assert(may(terms[i], answers[i]));
    }
    assert(answers =~= terms.map_values(|term: T| Ok::<Option<EncodedTerm<I>>, E>(known(term))));
}

/// Of a store that has one answer for each scan, a view hands out one thing
/// only for a pattern: what it makes of the store's answers to the scans that
/// [`DatasetView::scans_for`] names.
pub proof fn law_quads_of_a_sure_store<S: ReadableEncodedStore>(
    view: DatasetView<S>,
    scan: spec_fn(QuadPattern<S::StrId>) -> Seq<StoreItem<S::StrId, S::Error>>,
    subject: Option<EncodedTerm<DatasetStrId<S::StrId>>>,
    predicate: Option<EncodedTerm<DatasetStrId<S::StrId>>>,
    object: Option<EncodedTerm<DatasetStrId<S::StrId>>>,
    graph_name: Option<EncodedTerm<DatasetStrId<S::StrId>>>,
    quads: Seq<ViewItem<S::StrId, S::Error>>,
)
    requires
        forall|pattern: QuadPattern<S::StrId>, items: Seq<StoreItem<S::StrId, S::Error>>| #[trigger]
            view.persistent().yields(pattern, items) ==> items == scan(pattern),
        view.yields((subject, predicate, object, graph_name), quads),
    ensures
        quads == match store_pattern(subject, predicate, object, graph_name) {
            None => Seq::<ViewItem<S::StrId, S::Error>>::empty(),
            Some((s, p, o, _)) => {
                let plan = view.scans_for(subject, predicate, object, graph_name);
                assembled(plan, Seq::new(plan.len(), |i: int| scan((s, p, o, plan[i].graph_name))))
            },
        },
{
    law_quads_come_from_the_scans(view, subject, predicate, object, graph_name, quads);
    if let Some((s, p, o, _)) = store_pattern(subject, predicate, object, graph_name) {
        let plan = view.scans_for(subject, predicate, object, graph_name);
        let scans = choose|scans: Seq<Seq<StoreItem<S::StrId, S::Error>>>|
            {
                &&& #[trigger] scanned(view.persistent(), s, p, o, plan, scans)
                &&& quads == assembled(plan, scans)
            };
        assert forall|i: int| 0 <= i < plan.len() implies scans[i] == scan(
            (s, p, o, plan[i].graph_name),
        ) by {
            assert(view.persistent().yields((s, p, o, plan[i].graph_name), scans[i]));
        }
        assert(scans =~= Seq::new(plan.len(), |i: int| scan((s, p, o, plan[i].graph_name))));
    }
}

} // verus!
