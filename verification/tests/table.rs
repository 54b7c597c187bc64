use packet_sniffer::table::Table;

fn pairs(table: &Table<String>) -> Vec<(&str, &str)> {
    table.entries().iter().map(|entry| (entry.key.as_str(), entry.value.as_str())).collect()
}

#[test]
fn new_table_is_empty() {
    let table: Table<String> = Table::new();
    assert_eq!(table.len(), 0);
    assert!(table.get("anything").is_none());
    assert_eq!(table.index_of(&"anything".to_string()), 0);
}

#[test]
fn insert_appends_new_keys_in_order() {
    let mut table: Table<String> = Table::new();
    table.insert("b".to_string(), "1".to_string());
    table.insert("a".to_string(), "2".to_string());
    table.insert("c".to_string(), "3".to_string());
    assert_eq!(pairs(&table), vec![("b", "1"), ("a", "2"), ("c", "3")]);
    assert_eq!(table.len(), 3);
    assert_eq!(table.index_of(&"a".to_string()), 1);
    assert_eq!(table.index_of(&"z".to_string()), 3);
}

#[test]
fn insert_replaces_the_value_of_a_known_key() {
    let mut table: Table<String> = Table::new();
    table.insert("b".to_string(), "1".to_string());
    table.insert("a".to_string(), "2".to_string());
    table.insert("b".to_string(), "9".to_string());
    assert_eq!(pairs(&table), vec![("b", "9"), ("a", "2")]);
    assert_eq!(table.get("b").map(|value| value.as_str()), Some("9"));
    assert_eq!(table.get("a").map(|value| value.as_str()), Some("2"));
    assert!(table.get("B").is_none());
    assert!(table.get("").is_none());
}
