use chat_room_server::table::{position, NameSet, Table};

#[test]
fn position_finds_the_first_index() {
    let names = vec!["a".to_string(), "b".to_string(), "a".to_string()];
    assert_eq!(position(&names, "a"), Some(0));
    assert_eq!(position(&names, "b"), Some(1));
    assert_eq!(position(&names, "c"), None);
    assert_eq!(position(&names, ""), None);
    assert_eq!(position(&Vec::new(), "a"), None);
}

#[test]
fn name_set_holds_each_name_once() {
    let mut set = NameSet::new();
    assert!(set.is_empty());
    assert_eq!(set.len(), 0);
    assert!(set.insert("alice".to_string()));
    assert!(set.insert("bob".to_string()));
    assert!(!set.insert("alice".to_string()));
    assert_eq!(set.len(), 2);
    assert!(set.contains("alice"));
    assert!(set.contains("bob"));
    assert!(!set.contains("carol"));
    assert!(!set.contains("Alice"));
    let mut names = set.as_vec().clone();
    names.sort();
    assert_eq!(names, vec!["alice".to_string(), "bob".to_string()]);
}

#[test]
fn name_set_remove() {
    let mut set = NameSet::new();
    set.insert("alice".to_string());
    set.insert("bob".to_string());
    set.insert("carol".to_string());
    assert!(!set.remove("dave"));
    assert_eq!(set.len(), 3);
    assert!(set.remove("bob"));
    assert!(!set.remove("bob"));
    assert_eq!(set.len(), 2);
    assert!(set.contains("alice"));
    assert!(set.contains("carol"));
    assert!(set.remove("alice"));
    assert!(set.remove("carol"));
    assert!(set.is_empty());
}

#[test]
fn table_insert_get_remove() {
    let mut table: Table<u32> = Table::new();
    assert!(table.is_empty());
    assert_eq!(table.insert("a".to_string(), 1), None);
    assert_eq!(table.insert("b".to_string(), 2), None);
    assert_eq!(table.insert("a".to_string(), 3), Some(1));
    assert!(!table.is_empty());
    assert_eq!(table.get("a"), Some(&3));
    assert_eq!(table.get("b"), Some(&2));
    assert_eq!(table.get("c"), None);
    assert!(table.contains_key("a"));
    assert!(!table.contains_key("c"));
    assert_eq!(table.remove("b"), Some(2));
    assert_eq!(table.remove("b"), None);
    assert_eq!(table.get("a"), Some(&3));
}

#[test]
fn table_pop_empties_the_table() {
    let mut table: Table<u32> = Table::new();
    assert_eq!(table.pop(), None);
    table.insert("a".to_string(), 1);
    table.insert("b".to_string(), 2);
    let mut seen = Vec::new();
    while let Some((key, value)) = table.pop() {
        seen.push((key, value));
    }
    seen.sort();
    assert_eq!(seen, vec![("a".to_string(), 1), ("b".to_string(), 2)]);
    assert!(table.is_empty());
}

#[test]
fn name_set_gives_up_its_names() {
    let mut set = NameSet::new();
    set.insert("b".to_string());
    set.insert("a".to_string());
    set.insert("b".to_string());
    let mut names = set.into_vec();
    names.sort();
    assert_eq!(names, vec!["a".to_string(), "b".to_string()]);
    assert!(NameSet::new().into_vec().is_empty());
}
