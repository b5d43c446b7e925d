//! Which graphs answer a pattern, and what becomes of their quads.

use crate::encoded::{contains_term, EncodedQuad, EncodedTerm, StrId};
use crate::store::{ReadableEncodedStore, StoreItem};
use crate::str_id::{item_in_view, item_into_view, items_in_view, map_iter, DatasetStrId, ViewItem};
use vstd::prelude::*;

verus! {

/// The graphs that a query may see, already resolved against the store: the
/// graphs that together are its default graph, and the graphs that it may
/// address by name. Each list keeps the order in which the graphs were named
/// and may hold a graph more than once.
#[derive(Clone, Debug, PartialEq, Eq)]
pub struct EncodedDatasetSpec<I: StrId> {
    pub default: Vec<EncodedTerm<I>>,
    pub named: Vec<EncodedTerm<I>>,
}

/// What a view does with the quads of one scan of the store.
#[derive(Clone, Copy, Debug, PartialEq, Eq)]
pub enum ScanMode {
    /// Hands each quad on as it is.
    Plain,
    /// Hands each quad on as a quad of the default graph.
    Relabel,
    /// Hands on the quads of named graphs and drops those of the default
    /// graph.
    HideDefault,
}

/// One scan of the store that a view makes for a pattern: the graph position
/// that it hands to the store, and what it does with the quads that come
/// back. The other three positions are those of the pattern.
#[derive(Clone, Copy, Debug, PartialEq, Eq)]
pub struct GraphScan<I: StrId> {
    pub graph_name: Option<EncodedTerm<I>>,
    pub mode: ScanMode,
}

/// The scan of graph `graph` whose quads are handed on as they are.
pub open spec fn plain_scan<I: StrId>(graph: EncodedTerm<I>) -> GraphScan<I> {
    GraphScan { graph_name: Some(graph), mode: ScanMode::Plain }
}

/// The scan of graph `graph` whose quads are handed on as quads of the
/// default graph.
pub open spec fn relabel_scan<I: StrId>(graph: EncodedTerm<I>) -> GraphScan<I> {
    GraphScan { graph_name: Some(graph), mode: ScanMode::Relabel }
}

/// The scans that answer a pattern whose graph position is `graph_name`, in
/// the order in which their quads are handed out.
///
/// With a restriction, the default graph is the graphs of its first list, one
/// scan each; a named graph is scanned if the second list holds it and is
/// empty otherwise; an open position ranges over the second list only.
/// Without a restriction, a bound position goes to the store as it is, and an
/// open one scans everything and hides the default graph.
pub open spec fn graph_scans<I: StrId>(
    dataset: Option<EncodedDatasetSpec<I>>,
    graph_name: Option<EncodedTerm<I>>,
) -> Seq<GraphScan<I>> {
    match dataset {
        Some(dataset) => match graph_name {
            Some(graph) => if graph == EncodedTerm::<I>::DefaultGraph {
                dataset.default@.map_values(|g: EncodedTerm<I>| relabel_scan(g))
            } else if dataset.named@.contains(graph) {
                seq![plain_scan(graph)]
            } else {
                Seq::empty()
            },
            None => dataset.named@.map_values(|g: EncodedTerm<I>| plain_scan(g)),
        },
        None => match graph_name {
            Some(graph) => seq![plain_scan(graph)],
            None => seq![GraphScan { graph_name: None, mode: ScanMode::HideDefault }],
        },
    }
}

/// One scan for each graph of `graphs`, in their order, all in one mode.
fn scan_each<I: StrId>(graphs: &Vec<EncodedTerm<I>>, mode: ScanMode) -> (scans: Vec<GraphScan<I>>)
    ensures
        scans@ == graphs@.map_values(|g: EncodedTerm<I>| GraphScan { graph_name: Some(g), mode }),
{
    let mut scans: Vec<GraphScan<I>> = Vec::new();
    let mut i: usize = 0;
    while i < graphs.len()
        invariant
            i <= graphs.len(),
            scans@.len() == i,
            forall|j: int|
                0 <= j < i ==> scans@[j] == (GraphScan { graph_name: Some(graphs@[j]), mode }),
        decreases graphs.len() - i,
    {
        scans.push(GraphScan { graph_name: Some(graphs[i]), mode });
        i += 1;
    }
    assert(scans@ =~= graphs@.map_values(
        |g: EncodedTerm<I>| GraphScan { graph_name: Some(g), mode },
    ));
    scans
}

/// Decides which scans of the store answer a pattern whose graph position is
/// `graph_name`, and what is done with the quads of each.
pub fn select_graphs<I: StrId>(
    dataset: &Option<EncodedDatasetSpec<I>>,
    graph_name: Option<EncodedTerm<I>>,
) -> (scans: Vec<GraphScan<I>>)
    ensures
        scans@ == graph_scans(*dataset, graph_name),
{
    match dataset {
        Some(dataset) => match graph_name {
            Some(graph) => {
                if graph.is_default_graph() {
                    let scans = scan_each(&dataset.default, ScanMode::Relabel);
                    assert(scans@ =~= dataset.default@.map_values(
                        |g: EncodedTerm<I>| relabel_scan(g),
                    ));
                    scans
                } else if contains_term(&dataset.named, &graph) {
                    vec![GraphScan { graph_name: Some(graph), mode: ScanMode::Plain }]
                } else {
                    Vec::new()
                }
            },
            None => {
                let scans = scan_each(&dataset.named, ScanMode::Plain);
                assert(scans@ =~= dataset.named@.map_values(|g: EncodedTerm<I>| plain_scan(g)));
                scans
            },
        },
        None => match graph_name {
            Some(graph) => vec![GraphScan { graph_name: Some(graph), mode: ScanMode::Plain }],
            None => vec![GraphScan { graph_name: None, mode: ScanMode::HideDefault }],
        },
    }
}

/// The item as an item of the default graph: a quad gets the default graph
/// as its graph, a failure stays what it is.
pub open spec fn relabelled<I: StrId, E>(item: ViewItem<I, E>) -> ViewItem<I, E> {
    match item {
        Ok(quad) => Ok(
            EncodedQuad {
                subject: quad.subject,
                predicate: quad.predicate,
                object: quad.object,
                graph_name: EncodedTerm::DefaultGraph,
            },
        ),
        Err(error) => Err(error),
    }
}

/// Whether the item is handed out by a scan that hides the default graph:
/// every failure is, and every quad but those of the default graph.
pub open spec fn outside_default_graph<I: StrId, E>(item: ViewItem<I, E>) -> bool {
    match item {
        Ok(quad) => quad.graph_name != EncodedTerm::<DatasetStrId<I>>::DefaultGraph,
        Err(_) => true,
    }
}

/// Hands the item out as an item of the default graph.
pub fn relabel<I: StrId, E>(item: ViewItem<I, E>) -> (out: ViewItem<I, E>)
    ensures
        out == relabelled(item),
{
    match item {
        Ok(quad) => Ok(
            EncodedQuad::new(quad.subject, quad.predicate, quad.object, EncodedTerm::DefaultGraph),
        ),
        Err(error) => Err(error),
    }
}

/// Whether the item is a failure or a quad of another graph than the default
/// one.
pub fn is_outside_default_graph<I: StrId, E>(item: &ViewItem<I, E>) -> (outside: bool)
    ensures
        outside == outside_default_graph(*item),
{
    match item {
        Ok(quad) => !quad.graph_name.is_default_graph(),
        Err(_) => true,
    }
}

/// What a view hands out for one scan of the store that gave `items`.
pub open spec fn scan_in_view<I: StrId, E>(mode: ScanMode, items: Seq<StoreItem<I, E>>) -> Seq<
    ViewItem<I, E>,
> {
    match mode {
        ScanMode::Plain => items_in_view(items),
        ScanMode::Relabel => items_in_view(items).map_values(
            |item: ViewItem<I, E>| relabelled(item),
        ),
        ScanMode::HideDefault => items_in_view(items).filter(
            |item: ViewItem<I, E>| outside_default_graph(item),
        ),
    }
}

/// What a view hands out for one item of a scan: the item as the mode has
/// it, or nothing where the mode drops it.
pub open spec fn scan_item_in_view<I: StrId, E>(mode: ScanMode, item: StoreItem<I, E>) -> Option<
    ViewItem<I, E>,
> {
    match mode {
        ScanMode::Plain => Some(item_in_view(item)),
        ScanMode::Relabel => Some(relabelled(item_in_view(item))),
        ScanMode::HideDefault => if outside_default_graph(item_in_view(item)) {
            Some(item_in_view(item))
        } else {
            None
        },
    }
}

/// Makes of one item of a scan what the view hands out for it, if anything.
pub fn scan_item_into_view<I: StrId, E>(mode: ScanMode, item: StoreItem<I, E>) -> (seen: Option<
    ViewItem<I, E>,
>)
    ensures
        seen == scan_item_in_view(mode, item),
{
    let seen = item_into_view(item);
    match mode {
        ScanMode::Plain => Some(seen),
        ScanMode::Relabel => Some(relabel(seen)),
        ScanMode::HideDefault => if is_outside_default_graph(&seen) {
            Some(seen)
        } else {
            None
        },
    }
}

/// Gives each quad the default graph as its graph.
fn relabel_as_default<I: StrId, E>(items: Vec<ViewItem<I, E>>) -> (out: Vec<ViewItem<I, E>>)
    ensures
        out@ == items@.map_values(|item: ViewItem<I, E>| relabelled(item)),
{
    let mut out: Vec<ViewItem<I, E>> = Vec::new();
    for item in it: items.into_iter()
        invariant
            it.seq() == items@,
            out@.len() == it.index(),
            forall|j: int| 0 <= j < out@.len() ==> out@[j] == relabelled(items@[j]),
    {
        out.push(relabel(item));
    }
    assert(out@ =~= items@.map_values(|item: ViewItem<I, E>| relabelled(item)));
    out
}

/// Drops the quads of the default graph.
fn drop_default_graph<I: StrId, E>(items: Vec<ViewItem<I, E>>) -> (kept: Vec<ViewItem<I, E>>)
    ensures
        kept@ == items@.filter(|item: ViewItem<I, E>| outside_default_graph(item)),
{
    let ghost keep = |item: ViewItem<I, E>| outside_default_graph(item);
    let mut kept: Vec<ViewItem<I, E>> = Vec::new();
    for item in it: items.into_iter()
        invariant
            it.seq() == items@,
            keep == |item: ViewItem<I, E>| outside_default_graph(item),
            kept@ == items@.take(it.index() as int).filter(keep),
    {
        proof {
            let k = it.index() as int;
            reveal(Seq::filter);
            assert(items@.take(k + 1).drop_last() =~= items@.take(k));
        }
        if is_outside_default_graph(&item) {
            kept.push(item);
        }
    }
    proof {
        assert(items@.take(items@.len() as int) =~= items@);
    }
    kept
}

/// Makes of one scan of the store what the view hands out for it.
pub fn scan_into_view<I: StrId, E>(mode: ScanMode, items: Vec<StoreItem<I, E>>) -> (quads: Vec<
    ViewItem<I, E>,
>)
    ensures
        quads@ == scan_in_view(mode, items@),
{
    let mapped = map_iter(items);
    match mode {
        ScanMode::Plain => mapped,
        ScanMode::Relabel => relabel_as_default(mapped),
        ScanMode::HideDefault => drop_default_graph(mapped),
    }
}

/// Whether `scans` is what the store may hand out for the scans of `plan`,
/// made one after another with the three other positions as given.
pub open spec fn scanned<S: ReadableEncodedStore>(
    store: S,
    subject: Option<EncodedTerm<S::StrId>>,
    predicate: Option<EncodedTerm<S::StrId>>,
    object: Option<EncodedTerm<S::StrId>>,
    plan: Seq<GraphScan<S::StrId>>,
    scans: Seq<Seq<StoreItem<S::StrId, S::Error>>>,
) -> bool {
    &&& scans.len() == plan.len()
    &&& forall|i: int|
        0 <= i < plan.len() ==> store.yields(
            (subject, predicate, object, plan[i].graph_name),
            #[trigger] scans[i],
        )
}

/// What a view hands out when the scans of `plan` gave `scans`: for each scan
/// what [`scan_in_view`] says, one after another in the order of the plan.
pub open spec fn assembled<I: StrId, E>(
    plan: Seq<GraphScan<I>>,
    scans: Seq<Seq<StoreItem<I, E>>>,
) -> Seq<ViewItem<I, E>> {
    Seq::new(plan.len(), |i: int| scan_in_view(plan[i].mode, scans[i])).flatten()
}

/// Without a scan nothing is handed out.
pub proof fn lemma_assembled_none<I: StrId, E>(scans: Seq<Seq<StoreItem<I, E>>>)
    ensures
        assembled(Seq::<GraphScan<I>>::empty(), scans) == Seq::<ViewItem<I, E>>::empty(),
{
    let parts = Seq::new(0, |i: int| scan_in_view(Seq::<GraphScan<I>>::empty()[i].mode, scans[i]));
    assert(parts =~= Seq::<Seq<ViewItem<I, E>>>::empty());
    assert(parts.flatten() =~= Seq::<ViewItem<I, E>>::empty());
}

/// With one scan, what is handed out is what the view makes of that scan.
pub proof fn lemma_assembled_one<I: StrId, E>(scan: GraphScan<I>, items: Seq<StoreItem<I, E>>)
    ensures
        assembled(seq![scan], seq![items]) == scan_in_view(scan.mode, items),
{
    let plan = seq![scan];
    let scans = seq![items];
    let parts = Seq::new(plan.len(), |i: int| scan_in_view(plan[i].mode, scans[i]));
    assert(parts.len() == 1);
    parts.lemma_flatten_singleton();
}

/// Scans made one after another hand out their quads one after another.
pub proof fn lemma_assembled_concat<I: StrId, E>(
    first_plan: Seq<GraphScan<I>>,
    first_scans: Seq<Seq<StoreItem<I, E>>>,
    second_plan: Seq<GraphScan<I>>,
    second_scans: Seq<Seq<StoreItem<I, E>>>,
)
    requires
        first_plan.len() == first_scans.len(),
        second_plan.len() == second_scans.len(),
    ensures
        assembled(first_plan + second_plan, first_scans + second_scans) == assembled(
            first_plan,
            first_scans,
        ) + assembled(second_plan, second_scans),
{
    let plan = first_plan + second_plan;
    let scans = first_scans + second_scans;
    let parts = Seq::new(plan.len(), |i: int| scan_in_view(plan[i].mode, scans[i]));
    let first_parts = Seq::new(
        first_plan.len(),
        |i: int| scan_in_view(first_plan[i].mode, first_scans[i]),
    );
    let second_parts = Seq::new(
        second_plan.len(),
        |i: int| scan_in_view(second_plan[i].mode, second_scans[i]),
    );
    assert(parts =~= first_parts + second_parts);
    vstd::seq_lib::lemma_flatten_concat(first_parts, second_parts);
}

/// A scan that hides the default graph hands out no quad of the default
/// graph, whatever the store gave.
pub proof fn lemma_hidden_default_graph<I: StrId, E>(items: Seq<StoreItem<I, E>>, i: int)
    requires
        0 <= i < scan_in_view(ScanMode::HideDefault, items).len(),
    ensures
        outside_default_graph(scan_in_view(ScanMode::HideDefault, items)[i]),
{
    let shown = |item: ViewItem<I, E>| outside_default_graph(item);
    items_in_view(items).lemma_filter_pred(shown, i);
}

/// Whether `scans` is what the store may hand out for scanning each graph of
/// `graphs` in turn.
pub open spec fn each_graph_scanned<S: ReadableEncodedStore>(
    store: S,
    subject: Option<EncodedTerm<S::StrId>>,
    predicate: Option<EncodedTerm<S::StrId>>,
    object: Option<EncodedTerm<S::StrId>>,
    graphs: Seq<EncodedTerm<S::StrId>>,
    scans: Seq<Seq<StoreItem<S::StrId, S::Error>>>,
) -> bool {
    &&& scans.len() == graphs.len()
    &&& forall|i: int|
        0 <= i < graphs.len() ==> store.yields(
            (subject, predicate, object, Some(graphs[i])),
            #[trigger] scans[i],
        )
}

/// What a view hands out for scans that it treats all alike: for each what
/// [`scan_in_view`] says, one after another.
pub open spec fn scans_in_view<I: StrId, E>(
    mode: ScanMode,
    scans: Seq<Seq<StoreItem<I, E>>>,
) -> Seq<ViewItem<I, E>> {
    Seq::new(scans.len(), |i: int| scan_in_view(mode, scans[i])).flatten()
}

/// Two scans treated alike hand out the first's quads and then the second's.
pub proof fn lemma_two_scans_in_view<I: StrId, E>(
    mode: ScanMode,
    first: Seq<StoreItem<I, E>>,
    second: Seq<StoreItem<I, E>>,
)
    ensures
        scans_in_view(mode, seq![first, second]) == scan_in_view(mode, first) + scan_in_view(
            mode,
            second,
        ),
{
    let scans = seq![first, second];
    let parts = Seq::new(scans.len(), |i: int| scan_in_view(mode, scans[i]));
    let a = seq![scan_in_view(mode, first)];
    let b = seq![scan_in_view(mode, second)];
    assert(parts =~= a + b);
    vstd::seq_lib::lemma_flatten_concat(a, b);
    a.lemma_flatten_singleton();
    b.lemma_flatten_singleton();
}

} // verus!
