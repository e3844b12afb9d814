use samurai_bot::table::{
    get_random_samurai_id, get_samurai_name, samurai_entries, samurai_line, SamuraiEntry, TableError,
};

const SAMPLE_CSV: &str = "S_No.,Name,Description\n1,テスト侍,テストテストテスト\n";

fn read_table(text: &str) -> (Vec<String>, Vec<Vec<String>>) {
    let mut rdr = csv::ReaderBuilder::new().has_headers(true).from_reader(text.as_bytes());
    let headers = rdr.headers().unwrap().iter().map(|h| h.to_string()).collect();
    let rows = rdr
        .records()
        .map(|r| r.unwrap().iter().map(|f| f.to_string()).collect())
        .collect();
    (headers, rows)
}

fn sample_entries() -> Vec<SamuraiEntry> {
    let (headers, rows) = read_table(SAMPLE_CSV);
    match samurai_entries(&headers, &rows) {
        Ok(entries) => entries,
        Err(_) => panic!("sample table has both columns"),
    }
}

fn strings(items: &[&str]) -> Vec<String> {
    items.iter().map(|s| s.to_string()).collect()
}

#[test]
fn test_get_random_samurai_id() {
    let id = get_random_samurai_id(100);
    assert!(id < 100);
}

#[test]
fn test_read_samurai_csv_as_vec() {
    let samurai_entries = sample_entries();
    let name = get_samurai_name(&samurai_entries);

    assert!(name.is_some());
}

#[test]
fn test_get_samurai_name() {
    let samurai_entries = sample_entries();
    let name = get_samurai_name(&samurai_entries);

    assert!(name.is_some());
    if let Some(name) = name {
        assert!(!name.is_empty());
    }
}

#[test]
fn single_entry_gives_its_line() {
    let entries = sample_entries();
    assert_eq!(get_samurai_name(&entries), Some("0: テスト侍\nテストテストテスト".to_string()));
}

#[test]
fn empty_table_gives_no_name() {
    assert_eq!(get_samurai_name(&[]), None);
}

#[test]
fn line_carries_decimal_id() {
    let entries = vec![
        SamuraiEntry { name: "a".to_string(), description: "x".to_string() },
        SamuraiEntry { name: "b".to_string(), description: "y".to_string() },
    ];
    assert_eq!(samurai_line(&entries, 1), "1: b\ny");
    let many: Vec<SamuraiEntry> = (0..1205)
        .map(|i| SamuraiEntry { name: format!("n{}", i), description: String::new() })
        .collect();
    assert_eq!(samurai_line(&many, 1204), "1204: n1204\n");
    assert_eq!(samurai_line(&many, 10), "10: n10\n");
}

#[test]
fn random_id_stays_in_range() {
    for _ in 0..200 {
        assert!(get_random_samurai_id(3) < 3);
    }
    assert_eq!(get_random_samurai_id(1), 0);
}

#[test]
fn entries_follow_named_columns() {
    let headers = strings(&["Description", "x", "Name"]);
    let rows = vec![strings(&["d1", "-", "n1"]), strings(&["d2", "-", "n2"])];
    let entries = match samurai_entries(&headers, &rows) {
        Ok(e) => e,
        Err(_) => panic!("both columns are present"),
    };
    assert_eq!(entries.len(), 2);
    assert_eq!(entries[0].name, "n1");
    assert_eq!(entries[0].description, "d1");
    assert_eq!(entries[1].name, "n2");
    assert_eq!(entries[1].description, "d2");
}

#[test]
fn short_rows_give_empty_fields() {
    let headers = strings(&["Name", "Description"]);
    let rows = vec![strings(&["only"])];
    let entries = match samurai_entries(&headers, &rows) {
        Ok(e) => e,
        Err(_) => panic!("both columns are present"),
    };
    assert_eq!(entries[0].name, "only");
    assert_eq!(entries[0].description, "");
}

#[test]
fn missing_name_column_is_reported() {
    let headers = strings(&["S_No.", "Description"]);
    match samurai_entries(&headers, &Vec::new()) {
        Err(TableError::MissingColumn(c)) => assert_eq!(c, "Name"),
        Ok(_) => panic!("the Name column is missing"),
    }
}

#[test]
fn missing_description_column_is_reported() {
    let headers = strings(&["Name"]);
    match samurai_entries(&headers, &Vec::new()) {
        Err(TableError::MissingColumn(c)) => assert_eq!(c, "Description"),
        Ok(_) => panic!("the Description column is missing"),
    }
}
