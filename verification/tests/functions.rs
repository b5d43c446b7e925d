use sparql_dataset::graphs::{
    is_outside_default_graph, relabel, scan_into_view, scan_item_into_view, select_graphs,
    EncodedDatasetSpec, GraphScan, ScanMode,
};
use sparql_dataset::restriction::keep_encoded;
use sparql_dataset::str_id::{
    item_into_view, map_iter, transpose, try_map_quad_pattern, unwrap_store_id, DatasetStrId,
    ViewItem,
};
use sparql_dataset::encoded::{contains_term, EncodedQuad, EncodedTerm, StrId};
use sparql_dataset::error::EvaluationError;
use sparql_dataset::interner::{Interner, MAX_INTERNED};
use sparql_dataset::model::{DatasetSpec, NamedNode};
use sparql_dataset::store::StoreItem;

#[derive(Clone, Debug, PartialEq, Eq)]
struct StoreError {
    message: String,
}

fn corrupt() -> StoreError {
    StoreError { message: "bad page".to_string() }
}

fn iri(id: u64) -> EncodedTerm<u64> {
    EncodedTerm::NamedNode { iri_id: id }
}

fn seen_iri(id: u64) -> EncodedTerm<DatasetStrId<u64>> {
    EncodedTerm::NamedNode { iri_id: DatasetStrId::Store(id) }
}

fn made_up(key: usize) -> EncodedTerm<DatasetStrId<u64>> {
    EncodedTerm::NamedNode { iri_id: DatasetStrId::Temporary(key) }
}

fn stored(graph: EncodedTerm<u64>) -> EncodedQuad<u64> {
    EncodedQuad::new(iri(1), iri(2), EncodedTerm::BooleanLiteral(true), graph)
}

fn seen(graph: EncodedTerm<DatasetStrId<u64>>) -> EncodedQuad<DatasetStrId<u64>> {
    EncodedQuad::new(seen_iri(1), seen_iri(2), EncodedTerm::BooleanLiteral(true), graph)
}

fn found(graph: EncodedTerm<u64>) -> StoreItem<u64, StoreError> {
    Ok(stored(graph))
}

fn failed() -> StoreItem<u64, StoreError> {
    Err(corrupt())
}

fn handed(graph: EncodedTerm<DatasetStrId<u64>>) -> ViewItem<u64, StoreError> {
    Ok(seen(graph))
}

fn failure() -> ViewItem<u64, StoreError> {
    Err(EvaluationError::Store(corrupt()))
}

#[test]
fn transpose_of_each_shape() {
    assert_eq!(transpose(Some(Some(7u32))), Some(Some(7u32)));
    assert_eq!(transpose::<u32>(Some(None)), None);
    assert_eq!(transpose::<u32>(None), Some(None));
}

#[test]
fn unwrap_store_id_keeps_the_stores_and_refuses_the_rest() {
    assert_eq!(unwrap_store_id(DatasetStrId::Store(5u64)), Ok(5u64));
    assert_eq!(unwrap_store_id(DatasetStrId::<u64>::Temporary(5)), Err(()));
}

#[test]
fn same_id_tells_the_two_worlds_apart() {
    let store: DatasetStrId<u64> = DatasetStrId::Store(3);
    let temporary: DatasetStrId<u64> = DatasetStrId::Temporary(3);
    assert!(store.same_id(&DatasetStrId::Store(3)));
    assert!(!store.same_id(&DatasetStrId::Store(4)));
    assert!(temporary.same_id(&DatasetStrId::Temporary(3)));
    assert!(!temporary.same_id(&DatasetStrId::Temporary(4)));
    assert!(!store.same_id(&temporary));
    assert!(!temporary.same_id(&store));
    assert_ne!(store, temporary);
    assert!(7u64.same_id(&7u64));
    assert!(!7u64.same_id(&8u64));
    assert!(7u128.same_id(&7u128));
    assert!(!7u128.same_id(&8u128));
}

#[test]
fn same_term_compares_kind_and_values() {
    let terms: Vec<EncodedTerm<u64>> = vec![
        EncodedTerm::DefaultGraph,
        EncodedTerm::NamedNode { iri_id: 1 },
        EncodedTerm::NamedNode { iri_id: 2 },
        EncodedTerm::InlineBlankNode { id: 1 },
        EncodedTerm::InlineBlankNode { id: 2 },
        EncodedTerm::NamedBlankNode { id_id: 1 },
        EncodedTerm::NamedBlankNode { id_id: 2 },
        EncodedTerm::StringLiteral { value_id: 1 },
        EncodedTerm::StringLiteral { value_id: 2 },
        EncodedTerm::LangStringLiteral { value_id: 1, language_id: 1 },
        EncodedTerm::LangStringLiteral { value_id: 1, language_id: 2 },
        EncodedTerm::LangStringLiteral { value_id: 2, language_id: 1 },
        EncodedTerm::TypedLiteral { value_id: 1, datatype_id: 1 },
        EncodedTerm::TypedLiteral { value_id: 1, datatype_id: 2 },
        EncodedTerm::TypedLiteral { value_id: 2, datatype_id: 1 },
        EncodedTerm::BooleanLiteral(true),
        EncodedTerm::BooleanLiteral(false),
        EncodedTerm::IntegerLiteral(1),
        EncodedTerm::IntegerLiteral(-1),
    ];
    for (i, a) in terms.iter().enumerate() {
        for (j, b) in terms.iter().enumerate() {
            assert_eq!(a.same_term(b), i == j);
            assert_eq!(a == b, i == j);
        }
        assert_eq!(a.is_default_graph(), i == 0);
    }
}

#[test]
fn contains_term_finds_what_is_there() {
    let terms = vec![iri(1), EncodedTerm::DefaultGraph, iri(3)];
    assert!(contains_term(&terms, &iri(1)));
    assert!(contains_term(&terms, &iri(3)));
    assert!(contains_term(&terms, &EncodedTerm::DefaultGraph));
    assert!(!contains_term(&terms, &iri(2)));
    assert!(!contains_term(&vec![], &iri(1)));
}

#[test]
fn into_view_marks_every_identifier() {
    assert_eq!(EncodedTerm::<u64>::DefaultGraph.into_view(), EncodedTerm::DefaultGraph);
    assert_eq!(iri(4).into_view(), seen_iri(4));
    assert_eq!(
        EncodedTerm::<u64>::InlineBlankNode { id: 9 }.into_view(),
        EncodedTerm::InlineBlankNode { id: 9 }
    );
    assert_eq!(
        EncodedTerm::NamedBlankNode { id_id: 4u64 }.into_view(),
        EncodedTerm::NamedBlankNode { id_id: DatasetStrId::Store(4u64) }
    );
    assert_eq!(
        EncodedTerm::StringLiteral { value_id: 4u64 }.into_view(),
        EncodedTerm::StringLiteral { value_id: DatasetStrId::Store(4u64) }
    );
    assert_eq!(
        EncodedTerm::LangStringLiteral { value_id: 4u64, language_id: 5u64 }.into_view(),
        EncodedTerm::LangStringLiteral {
            value_id: DatasetStrId::Store(4u64),
            language_id: DatasetStrId::Store(5u64)
        }
    );
    assert_eq!(
        EncodedTerm::TypedLiteral { value_id: 4u64, datatype_id: 5u64 }.into_view(),
        EncodedTerm::TypedLiteral {
            value_id: DatasetStrId::Store(4u64),
            datatype_id: DatasetStrId::Store(5u64)
        }
    );
    assert_eq!(
        EncodedTerm::<u64>::BooleanLiteral(false).into_view(),
        EncodedTerm::BooleanLiteral(false)
    );
    assert_eq!(
        EncodedTerm::<u64>::IntegerLiteral(-3).into_view(),
        EncodedTerm::IntegerLiteral(-3)
    );
}

#[test]
fn try_into_store_undoes_into_view() {
    let terms: Vec<EncodedTerm<u64>> = vec![
        EncodedTerm::DefaultGraph,
        EncodedTerm::NamedNode { iri_id: 1 },
        EncodedTerm::InlineBlankNode { id: 1 },
        EncodedTerm::NamedBlankNode { id_id: 1 },
        EncodedTerm::StringLiteral { value_id: 1 },
        EncodedTerm::LangStringLiteral { value_id: 1, language_id: 2 },
        EncodedTerm::TypedLiteral { value_id: 1, datatype_id: 2 },
        EncodedTerm::BooleanLiteral(true),
        EncodedTerm::IntegerLiteral(1),
    ];
    for term in terms {
        assert_eq!(term.into_view().try_into_store(), Ok(term));
    }
}

#[test]
fn try_into_store_refuses_every_temporary() {
    let t = DatasetStrId::<u64>::Temporary(0);
    let s = DatasetStrId::Store(0u64);
    assert_eq!(EncodedTerm::NamedNode { iri_id: t }.try_into_store(), Err(()));
    assert_eq!(EncodedTerm::NamedBlankNode { id_id: t }.try_into_store(), Err(()));
    assert_eq!(EncodedTerm::StringLiteral { value_id: t }.try_into_store(), Err(()));
    assert_eq!(
        EncodedTerm::LangStringLiteral { value_id: t, language_id: s }.try_into_store(),
        Err(())
    );
    assert_eq!(
        EncodedTerm::LangStringLiteral { value_id: s, language_id: t }.try_into_store(),
        Err(())
    );
    assert_eq!(
        EncodedTerm::TypedLiteral { value_id: t, datatype_id: s }.try_into_store(),
        Err(())
    );
    assert_eq!(
        EncodedTerm::TypedLiteral { value_id: s, datatype_id: t }.try_into_store(),
        Err(())
    );
}

#[test]
fn try_map_quad_pattern_of_the_stores_terms() {
    assert_eq!(
        try_map_quad_pattern(
            Some(seen_iri(1)),
            None,
            Some(EncodedTerm::IntegerLiteral(5)),
            Some(EncodedTerm::DefaultGraph)
        ),
        Some((
            Some(iri(1)),
            None,
            Some(EncodedTerm::IntegerLiteral(5)),
            Some(EncodedTerm::DefaultGraph)
        ))
    );
    assert_eq!(
        try_map_quad_pattern::<u64>(None, None, None, None),
        Some((None, None, None, None))
    );
}

#[test]
fn try_map_quad_pattern_refuses_a_temporary_in_any_position() {
    assert_eq!(try_map_quad_pattern(Some(made_up(0)), None, None, None), None);
    assert_eq!(try_map_quad_pattern(None, Some(made_up(0)), None, None), None);
    assert_eq!(try_map_quad_pattern(None, None, Some(made_up(0)), None), None);
    assert_eq!(try_map_quad_pattern(None, None, None, Some(made_up(0))), None);
    assert_eq!(
        try_map_quad_pattern(
            Some(seen_iri(1)),
            Some(seen_iri(2)),
            Some(seen_iri(3)),
            Some(made_up(9))
        ),
        None
    );
}

#[test]
fn map_iter_keeps_order_and_failures() {
    let items = vec![found(iri(7)), failed(), found(EncodedTerm::DefaultGraph)];
    let expected = vec![handed(seen_iri(7)), failure(), handed(EncodedTerm::DefaultGraph)];
    assert_eq!(map_iter(items), expected);
    assert_eq!(map_iter::<u64, StoreError>(vec![]), vec![]);
}

#[test]
fn item_into_view_of_a_quad_and_of_a_failure() {
    assert_eq!(item_into_view(found(iri(7))), handed(seen_iri(7)));
    assert_eq!(item_into_view(failed()), failure());
}

#[test]
fn relabel_changes_the_graph_only() {
    assert_eq!(relabel(handed(seen_iri(7))), handed(EncodedTerm::DefaultGraph));
    assert_eq!(relabel(handed(EncodedTerm::DefaultGraph)), handed(EncodedTerm::DefaultGraph));
    assert_eq!(relabel(failure()), failure());
}

#[test]
fn is_outside_default_graph_of_each_kind_of_item() {
    assert!(is_outside_default_graph(&handed(seen_iri(7))));
    assert!(!is_outside_default_graph(&handed(EncodedTerm::DefaultGraph)));
    assert!(is_outside_default_graph(&failure()));
}

#[test]
fn scan_into_view_in_each_mode() {
    let items = || vec![found(EncodedTerm::DefaultGraph), found(iri(7)), failed(), found(iri(8))];
    assert_eq!(
        scan_into_view(ScanMode::Plain, items()),
        vec![
            handed(EncodedTerm::DefaultGraph),
            handed(seen_iri(7)),
            failure(),
            handed(seen_iri(8))
        ]
    );
    assert_eq!(
        scan_into_view(ScanMode::Relabel, items()),
        vec![
            handed(EncodedTerm::DefaultGraph),
            handed(EncodedTerm::DefaultGraph),
            failure(),
            handed(EncodedTerm::DefaultGraph)
        ]
    );
    assert_eq!(
        scan_into_view(ScanMode::HideDefault, items()),
        vec![handed(seen_iri(7)), failure(), handed(seen_iri(8))]
    );
}

#[test]
fn scan_item_by_item_is_the_whole_scan() {
    let items = vec![
        found(EncodedTerm::DefaultGraph),
        failed(),
        found(iri(7)),
        found(EncodedTerm::DefaultGraph),
    ];
    for mode in [ScanMode::Plain, ScanMode::Relabel, ScanMode::HideDefault] {
        let by_item: Vec<ViewItem<u64, StoreError>> =
            items.iter().cloned().filter_map(|item| scan_item_into_view(mode, item)).collect();
        assert_eq!(by_item, scan_into_view(mode, items.clone()));
    }
    assert_eq!(
        scan_item_into_view(ScanMode::HideDefault, found(EncodedTerm::DefaultGraph)),
        None
    );
    assert_eq!(
        scan_item_into_view(ScanMode::Relabel, found(iri(7))),
        Some(handed(EncodedTerm::DefaultGraph))
    );
    assert_eq!(scan_item_into_view(ScanMode::HideDefault, failed()), Some(failure()));
}

#[test]
fn select_graphs_without_restriction() {
    assert_eq!(
        select_graphs::<u64>(&None, None),
        vec![GraphScan { graph_name: None, mode: ScanMode::HideDefault }]
    );
    assert_eq!(
        select_graphs(&None, Some(iri(1))),
        vec![GraphScan { graph_name: Some(iri(1)), mode: ScanMode::Plain }]
    );
    assert_eq!(
        select_graphs::<u64>(&None, Some(EncodedTerm::DefaultGraph)),
        vec![GraphScan { graph_name: Some(EncodedTerm::DefaultGraph), mode: ScanMode::Plain }]
    );
}

#[test]
fn select_graphs_with_restriction() {
    let dataset =
        Some(EncodedDatasetSpec { default: vec![iri(1), iri(2)], named: vec![iri(3), iri(1)] });
    assert_eq!(
        select_graphs(&dataset, Some(EncodedTerm::DefaultGraph)),
        vec![
            GraphScan { graph_name: Some(iri(1)), mode: ScanMode::Relabel },
            GraphScan { graph_name: Some(iri(2)), mode: ScanMode::Relabel }
        ]
    );
    assert_eq!(
        select_graphs(&dataset, None),
        vec![
            GraphScan { graph_name: Some(iri(3)), mode: ScanMode::Plain },
            GraphScan { graph_name: Some(iri(1)), mode: ScanMode::Plain }
        ]
    );
    assert_eq!(
        select_graphs(&dataset, Some(iri(3))),
        vec![GraphScan { graph_name: Some(iri(3)), mode: ScanMode::Plain }]
    );
    assert_eq!(select_graphs(&dataset, Some(iri(2))), vec![]);
}

#[test]
fn select_graphs_with_empty_restriction() {
    let dataset: Option<EncodedDatasetSpec<u64>> =
        Some(EncodedDatasetSpec { default: vec![], named: vec![] });
    assert_eq!(select_graphs(&dataset, Some(EncodedTerm::DefaultGraph)), vec![]);
    assert_eq!(select_graphs(&dataset, None), vec![]);
    assert_eq!(select_graphs(&dataset, Some(iri(1))), vec![]);
}

#[test]
fn keep_encoded_takes_up_each_kind_of_answer() {
    let mut found: Vec<EncodedTerm<u64>> = vec![iri(1)];
    let known: Result<Option<EncodedTerm<u64>>, StoreError> = Ok(Some(iri(2)));
    let unknown: Result<Option<EncodedTerm<u64>>, StoreError> = Ok(None);
    assert_eq!(keep_encoded(&mut found, known), Ok(()));
    assert_eq!(found, vec![iri(1), iri(2)]);
    assert_eq!(keep_encoded(&mut found, unknown), Ok(()));
    assert_eq!(found, vec![iri(1), iri(2)]);
    assert_eq!(keep_encoded(&mut found, Err(corrupt())), Err(corrupt()));
    assert_eq!(found, vec![iri(1), iri(2)]);
}

#[test]
fn dataset_spec_is_empty_when_it_names_no_graph() {
    let node = || NamedNode { iri: "http://example.com/g".to_string() };
    assert!(DatasetSpec { default: vec![], named: vec![] }.is_empty());
    assert!(!DatasetSpec { default: vec![node()], named: vec![] }.is_empty());
    assert!(!DatasetSpec { default: vec![], named: vec![node()] }.is_empty());
}

#[test]
fn interner_starts_empty() {
    let interner = Interner::new();
    assert_eq!(interner.len(), 0);
    assert_eq!(interner.get("a"), None);
    assert_eq!(interner.resolve(0), None);
}

#[test]
fn interner_gives_keys_by_position() {
    let mut interner = Interner::new();
    assert_eq!(interner.intern("a"), 0);
    assert_eq!(interner.intern("b"), 1);
    assert_eq!(interner.intern("a"), 0);
    assert_eq!(interner.intern("c"), 2);
    assert_eq!(interner.len(), 3);
    assert_eq!(interner.get("b"), Some(1));
    assert_eq!(interner.get("d"), None);
    assert_eq!(interner.resolve(2), Some("c".to_string()));
    assert_eq!(interner.resolve(3), None);
    assert_eq!(interner.resolve(MAX_INTERNED), None);
    assert_eq!(interner.resolve(usize::MAX), None);
}

#[test]
fn interner_tells_strings_apart_by_every_character() {
    let mut interner = Interner::new();
    let a = interner.intern("graph");
    let b = interner.intern("Graph");
    let c = interner.intern("graph ");
    let d = interner.intern("gr\u{e4}ph");
    assert_eq!(vec![a, b, c, d], vec![0, 1, 2, 3]);
    assert_eq!(interner.resolve(d), Some("gr\u{e4}ph".to_string()));
}

#[test]
fn max_interned_is_the_number_of_keys() {
    assert_eq!(MAX_INTERNED as u64, u32::MAX as u64);
}
