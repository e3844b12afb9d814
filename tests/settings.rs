use samurai_bot::config::{normalize_keys, ConfigTree};

fn table(entries: Vec<(&str, ConfigTree<i32>)>) -> ConfigTree<i32> {
    ConfigTree::Table(entries.into_iter().map(|(k, v)| (k.to_string(), v)).collect())
}

fn leaf_at(tree: &ConfigTree<i32>, key: &str) -> Option<i32> {
    match tree {
        ConfigTree::Table(entries) => entries.iter().find(|(k, _)| k == key).and_then(|(_, v)| match v {
            ConfigTree::Leaf(x) => Some(*x),
            _ => None,
        }),
        _ => None,
    }
}

fn keys(tree: &ConfigTree<i32>) -> Vec<String> {
    match tree {
        ConfigTree::Table(entries) => entries.iter().map(|(k, _)| k.clone()).collect(),
        _ => Vec::new(),
    }
}

#[test]
fn table_keys_are_lowercased() {
    let tree = table(vec![("DISCORD_TOKEN", ConfigTree::Leaf(1)), ("Samurai_CSV_Path", ConfigTree::Leaf(2))]);
    let out = normalize_keys(tree);
    assert_eq!(keys(&out), vec!["discord_token".to_string(), "samurai_csv_path".to_string()]);
    assert_eq!(leaf_at(&out, "discord_token"), Some(1));
    assert_eq!(leaf_at(&out, "samurai_csv_path"), Some(2));
}

#[test]
fn keys_that_lowercase_alike_keep_the_later_value() {
    let tree = table(vec![("Key", ConfigTree::Leaf(1)), ("other", ConfigTree::Leaf(5)), ("KEY", ConfigTree::Leaf(2))]);
    let out = normalize_keys(tree);
    assert_eq!(keys(&out), vec!["key".to_string(), "other".to_string()]);
    assert_eq!(leaf_at(&out, "key"), Some(2));
    assert_eq!(leaf_at(&out, "other"), Some(5));
}

#[test]
fn nested_tables_and_arrays_are_normalised() {
    let inner = table(vec![("Inner", ConfigTree::Leaf(3))]);
    let tree = table(vec![("Outer", ConfigTree::Array(vec![inner, ConfigTree::Leaf(4)]))]);
    let out = normalize_keys(tree);
    assert_eq!(keys(&out), vec!["outer".to_string()]);
    match &out {
        ConfigTree::Table(entries) => match &entries[0].1 {
            ConfigTree::Array(items) => {
                assert_eq!(items.len(), 2);
                assert_eq!(keys(&items[0]), vec!["inner".to_string()]);
                assert_eq!(leaf_at(&items[0], "inner"), Some(3));
                assert!(matches!(items[1], ConfigTree::Leaf(4)));
            }
            _ => panic!("the array stays an array"),
        },
        _ => panic!("the table stays a table"),
    }
}

#[test]
fn leaves_pass_through() {
    assert!(matches!(normalize_keys(ConfigTree::Leaf(7)), ConfigTree::Leaf(7)));
    let empty = normalize_keys(table(Vec::new()));
    assert!(keys(&empty).is_empty());
}

#[test]
fn non_ascii_keys_are_lowercased() {
    let out = normalize_keys(table(vec![("ÄBC", ConfigTree::Leaf(1))]));
    assert_eq!(keys(&out), vec!["äbc".to_string()]);
}
