use roapi_startup::context::{ContextError, ContextMode, QueryError, TableContext};
use roapi_startup::named::NamedMap;

fn tables(rows: &[(&str, Vec<i64>)]) -> NamedMap<Vec<i64>> {
    let mut m = NamedMap::new();
    for (n, r) in rows {
        m.insert(n.to_string(), r.clone());
    }
    m
}

#[test]
fn query_sees_loaded_table() {
    let ctx = TableContext::new(ContextMode::ReadOnly, tables(&[("t", vec![1, 2])]));
    assert_eq!(ctx.execute_query(&"t".to_string()), Ok(&vec![1, 2]));
}

#[test]
fn query_of_unknown_table_fails() {
    let ctx = TableContext::new(ContextMode::Concurrent, tables(&[("t", vec![1])]));
    assert_eq!(ctx.execute_query(&"u".to_string()), Err(QueryError::TableNotFound));
}

#[test]
fn read_only_context_refuses_load_and_refresh() {
    let mut ctx = TableContext::new(ContextMode::ReadOnly, tables(&[("t", vec![1])]));
    assert_eq!(ctx.load_table("t".to_string(), vec![9]), Err(ContextError::ReadOnly));
    assert_eq!(ctx.refresh_tables(tables(&[("t", vec![5])])), Err(ContextError::ReadOnly));
    assert_eq!(ctx.execute_query(&"t".to_string()), Ok(&vec![1]));
}

#[test]
fn concurrent_load_replaces_one_table_whole() {
    let mut ctx = TableContext::new(
        ContextMode::Concurrent,
        tables(&[("a", vec![1, 2, 3]), ("b", vec![4])]),
    );
    assert_eq!(ctx.execute_query(&"a".to_string()), Ok(&vec![1, 2, 3]));
    assert_eq!(ctx.load_table("a".to_string(), vec![7, 8]), Ok(()));
    assert_eq!(ctx.execute_query(&"a".to_string()), Ok(&vec![7, 8]));
    assert_eq!(ctx.execute_query(&"b".to_string()), Ok(&vec![4]));
}

#[test]
fn concurrent_refresh_replaces_every_table() {
    let mut ctx = TableContext::new(
        ContextMode::Concurrent,
        tables(&[("a", vec![1]), ("b", vec![2])]),
    );
    assert_eq!(ctx.refresh_tables(tables(&[("b", vec![20]), ("a", vec![10, 11])])), Ok(()));
    assert_eq!(ctx.execute_query(&"a".to_string()), Ok(&vec![10, 11]));
    assert_eq!(ctx.execute_query(&"b".to_string()), Ok(&vec![20]));
    assert_eq!(ctx.execute_query(&"c".to_string()), Err(QueryError::TableNotFound));
}

#[test]
fn load_of_new_table_makes_it_queryable() {
    let mut ctx = TableContext::new(ContextMode::Concurrent, NamedMap::new());
    assert_eq!(ctx.execute_query(&"n".to_string()), Err(QueryError::TableNotFound));
    assert_eq!(ctx.load_table("n".to_string(), vec![5]), Ok(()));
    assert_eq!(ctx.execute_query(&"n".to_string()), Ok(&vec![5]));
}

#[test]
fn loading_twice_equals_loading_once() {
    let mut once = TableContext::new(ContextMode::Concurrent, tables(&[("a", vec![1])]));
    let mut twice = TableContext::new(ContextMode::Concurrent, tables(&[("a", vec![1])]));
    once.load_table("t".to_string(), vec![3, 4]).unwrap();
    twice.load_table("t".to_string(), vec![3, 4]).unwrap();
    twice.load_table("t".to_string(), vec![3, 4]).unwrap();
    for name in ["a", "t", "z"] {
        let n = name.to_string();
        assert_eq!(once.execute_query(&n), twice.execute_query(&n));
    }
    assert_eq!(once.tables.len(), twice.tables.len());
}
