use roapi_startup::named::NamedMap;
use roapi_startup::source::{registry_from, TableSource};

fn src(name: &str, uri: &str) -> TableSource {
    TableSource::new(name.to_string(), uri.to_string())
}

#[test]
fn registry_keeps_each_name_once_and_last_source_wins() {
    let sources = vec![src("a", "a1.csv"), src("b", "b.csv"), src("a", "a2.csv")];
    let reg = registry_from(&sources);
    assert_eq!(reg.len(), 2);
    assert_eq!(reg.key_at(0), "a");
    assert_eq!(reg.key_at(1), "b");
    assert_eq!(reg.get(&"a".to_string()).unwrap().uri, "a2.csv");
    assert_eq!(reg.get(&"b".to_string()).unwrap().uri, "b.csv");
    assert!(reg.get(&"c".to_string()).is_none());
}

#[test]
fn registry_of_no_sources_is_empty() {
    let reg = registry_from(&Vec::new());
    assert_eq!(reg.len(), 0);
}

#[test]
fn named_map_insert_replaces_in_place() {
    let mut m: NamedMap<u32> = NamedMap::new();
    m.insert("x".to_string(), 1);
    m.insert("y".to_string(), 2);
    m.insert("x".to_string(), 3);
    assert_eq!(m.len(), 2);
    assert_eq!(m.find(&"x".to_string()), Some(0));
    assert_eq!(m.find(&"y".to_string()), Some(1));
    assert_eq!(*m.value_at(0), 3);
    assert_eq!(m.find(&"z".to_string()), None);
}

#[test]
fn duplicate_source_is_equal() {
    let s = src("t", "s3://bucket/t.parquet");
    assert_eq!(s.duplicate(), s);
}

#[test]
fn registry_of_distinct_names_has_one_entry_each() {
    let sources = vec![src("x", "x.csv"), src("y", "y.json"), src("z", "z.parquet")];
    let reg = registry_from(&sources);
    assert_eq!(reg.len(), 3);
    for s in &sources {
        assert_eq!(reg.get(&s.name), Some(s));
    }
}
