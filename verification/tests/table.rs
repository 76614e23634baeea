use visual_regression::table::Table;

#[test]
fn new_table_is_empty() {
    let t: Table<u32> = Table::new();
    assert_eq!(t.len(), 0);
    assert_eq!(t.get("a"), None);
    assert_eq!(t.position("a"), None);
}

#[test]
fn insert_appends_new_names_in_order() {
    let t = Table::new().insert("b".to_string(), 1u32).insert("a".to_string(), 2u32);
    assert_eq!(t.len(), 2);
    assert_eq!(t.name_at(0), "b");
    assert_eq!(*t.value_at(0), 1);
    assert_eq!(t.name_at(1), "a");
    assert_eq!(*t.value_at(1), 2);
    assert_eq!(t.position("a"), Some(1));
}

#[test]
fn insert_replaces_the_value_of_a_known_name() {
    let t = Table::new()
        .insert("a".to_string(), 1u32)
        .insert("b".to_string(), 2u32)
        .insert("a".to_string(), 3u32);
    assert_eq!(t.len(), 2);
    assert_eq!(t.name_at(0), "a");
    assert_eq!(t.get("a"), Some(&3));
    assert_eq!(t.get("b"), Some(&2));
    assert_eq!(t.get("c"), None);
}

#[test]
fn names_are_compared_exactly() {
    let t = Table::new().insert("a".to_string(), 1u32).insert("A".to_string(), 2u32);
    assert_eq!(t.len(), 2);
    assert_eq!(t.get("A"), Some(&2));
    assert_eq!(t.get(""), None);
}
