use be::store::Row;
use be::store::Store;
use be::store::StoreError;
use be::store::Table;
use be::store::ToolKind;

fn fourmolu_row(version: &str, config: u64, extensions: u64, source: u64) -> Row {
    Row {
        version: String::from(version),
        config_hash: Some(config),
        extensions_hash: Some(extensions),
        source_hash: source,
        payload: None,
    }
}

fn nixfmt_row(version: &str, source: u64) -> Row {
    Row {
        version: String::from(version),
        config_hash: None,
        extensions_hash: None,
        source_hash: source,
        payload: None,
    }
}

fn hlint_row(version: &str, configs: u64, source: u64, hints: &[u8]) -> Row {
    Row {
        version: String::from(version),
        config_hash: Some(configs),
        extensions_hash: None,
        source_hash: source,
        payload: Some(hints.to_vec()),
    }
}

#[test]
fn a_new_store_is_valid_for_no_identity() {
    let store = Store::new();
    assert!(store.identity().is_empty());
    assert!(!store.is_valid("42"));
    assert!(!store.is_valid(""));
    assert_eq!(store.len(ToolKind::Fourmolu), 0);
    assert_eq!(store.len(ToolKind::Nixfmt), 0);
    assert_eq!(store.len(ToolKind::Hlint), 0);
}

#[test]
fn opening_a_new_store_writes_the_identity_as_decimal_text() {
    let store = Store::new().open(18446744073709551615);
    assert_eq!(store.identity(), &vec![String::from("18446744073709551615")]);
    assert!(store.is_valid("18446744073709551615"));
    assert!(!store.is_valid("18446744073709551614"));
}

#[test]
fn opening_under_the_same_identity_keeps_every_row() {
    let mut store = Store::new().open(7);
    assert_eq!(store.record(ToolKind::Fourmolu, fourmolu_row("v1", 1, 2, 3)), Ok(true));
    assert_eq!(store.record(ToolKind::Nixfmt, nixfmt_row("n1", 3)), Ok(true));
    assert_eq!(store.record(ToolKind::Hlint, hlint_row("h1", 5, 3, b"[]")), Ok(true));
    let store = store.open(7);
    assert_eq!(store.identity(), &vec![String::from("7")]);
    assert_eq!(store.len(ToolKind::Fourmolu), 1);
    assert_eq!(store.len(ToolKind::Nixfmt), 1);
    assert_eq!(store.len(ToolKind::Hlint), 1);
    assert!(store.lookup(ToolKind::Fourmolu, &fourmolu_row("v1", 1, 2, 3)).is_some());
}

#[test]
fn opening_under_another_identity_resets_every_table() {
    let mut store = Store::new().open(7);
    assert_eq!(store.record(ToolKind::Fourmolu, fourmolu_row("v1", 1, 2, 3)), Ok(true));
    assert_eq!(store.record(ToolKind::Nixfmt, nixfmt_row("n1", 3)), Ok(true));
    assert_eq!(store.record(ToolKind::Hlint, hlint_row("h1", 5, 3, b"[]")), Ok(true));
    let store = store.open(8);
    assert_eq!(store.identity(), &vec![String::from("8")]);
    assert_eq!(store.len(ToolKind::Fourmolu), 0);
    assert_eq!(store.len(ToolKind::Nixfmt), 0);
    assert_eq!(store.len(ToolKind::Hlint), 0);
    assert!(store.lookup(ToolKind::Fourmolu, &fourmolu_row("v1", 1, 2, 3)).is_none());
}

#[test]
fn a_store_with_two_identity_rows_is_reset_even_if_one_matches() {
    let mut store = Store::new();
    store.push_identity(String::from("7"));
    store.push_identity(String::from("8"));
    assert!(!store.is_valid("7"));
    let store = store.open(7);
    assert_eq!(store.identity(), &vec![String::from("7")]);
}

#[test]
fn a_store_whose_identity_is_no_number_is_reset() {
    let mut store = Store::new();
    store.push_identity(String::from("seven"));
    assert!(store.is_valid("seven"));
    let store = store.open(7);
    assert_eq!(store.identity(), &vec![String::from("7")]);
}

#[test]
fn reset_leaves_one_identity_row_and_no_rows() {
    let mut store = Store::new().open(1);
    assert_eq!(store.record(ToolKind::Nixfmt, nixfmt_row("n1", 3)), Ok(true));
    store.reset("other");
    assert_eq!(store.identity(), &vec![String::from("other")]);
    assert_eq!(store.len(ToolKind::Nixfmt), 0);
}

#[test]
fn lookup_compares_every_column_of_the_key() {
    let mut store = Store::new().open(1);
    assert_eq!(store.record(ToolKind::Fourmolu, fourmolu_row("v1", 1, 2, 3)), Ok(true));
    assert!(store.lookup(ToolKind::Fourmolu, &fourmolu_row("v1", 1, 2, 3)).is_some());
    assert!(store.lookup(ToolKind::Fourmolu, &fourmolu_row("v2", 1, 2, 3)).is_none());
    assert!(store.lookup(ToolKind::Fourmolu, &fourmolu_row("v1", 9, 2, 3)).is_none());
    assert!(store.lookup(ToolKind::Fourmolu, &fourmolu_row("v1", 1, 9, 3)).is_none());
    assert!(store.lookup(ToolKind::Fourmolu, &fourmolu_row("v1", 1, 2, 9)).is_none());
    assert!(store.lookup(ToolKind::Nixfmt, &nixfmt_row("v1", 3)).is_none());
}

#[test]
fn record_twice_leaves_one_row() {
    let mut store = Store::new().open(1);
    assert_eq!(store.record(ToolKind::Nixfmt, nixfmt_row("n1", 3)), Ok(true));
    assert_eq!(store.record(ToolKind::Nixfmt, nixfmt_row("n1", 3)), Ok(false));
    assert_eq!(store.len(ToolKind::Nixfmt), 1);
    assert_eq!(store.record(ToolKind::Nixfmt, nixfmt_row("n1", 4)), Ok(true));
    assert_eq!(store.record(ToolKind::Nixfmt, nixfmt_row("n2", 3)), Ok(true));
    assert_eq!(store.len(ToolKind::Nixfmt), 3);
}

#[test]
fn the_first_payload_recorded_under_a_key_stays() {
    let mut store = Store::new().open(1);
    assert_eq!(store.record(ToolKind::Hlint, hlint_row("h1", 5, 3, b"first")), Ok(true));
    assert_eq!(store.record(ToolKind::Hlint, hlint_row("h1", 5, 3, b"second")), Ok(false));
    let hit = store.lookup(ToolKind::Hlint, &hlint_row("h1", 5, 3, b""));
    assert_eq!(hit.and_then(|row| row.payload.clone()), Some(b"first".to_vec()));
    assert_eq!(store.len(ToolKind::Hlint), 1);
}

#[test]
fn the_constraint_of_the_first_formatter_leaves_the_extensions_out() {
    let mut store = Store::new().open(1);
    assert_eq!(store.record(ToolKind::Fourmolu, fourmolu_row("v1", 1, 2, 3)), Ok(true));
    assert_eq!(store.record(ToolKind::Fourmolu, fourmolu_row("v1", 1, 5, 3)), Ok(false));
    assert_eq!(store.len(ToolKind::Fourmolu), 1);
    assert!(store.lookup(ToolKind::Fourmolu, &fourmolu_row("v1", 1, 5, 3)).is_none());
    assert!(store.lookup(ToolKind::Fourmolu, &fourmolu_row("v1", 1, 2, 3)).is_some());
}

#[test]
fn a_row_without_the_columns_of_the_table_is_refused() {
    let mut store = Store::new().open(1);
    assert_eq!(
        store.record(ToolKind::Fourmolu, nixfmt_row("v1", 3)),
        Err(StoreError::SchemaMismatch)
    );
    assert_eq!(
        store.record(ToolKind::Nixfmt, fourmolu_row("v1", 1, 2, 3)),
        Err(StoreError::SchemaMismatch)
    );
    assert_eq!(
        store.record(ToolKind::Hlint, fourmolu_row("v1", 1, 2, 3)),
        Err(StoreError::SchemaMismatch)
    );
    assert_eq!(
        store.record(ToolKind::Fourmolu, hlint_row("v1", 1, 3, b"[]")),
        Err(StoreError::SchemaMismatch)
    );
    assert_eq!(store.len(ToolKind::Fourmolu), 0);
    assert_eq!(store.len(ToolKind::Nixfmt), 0);
    assert_eq!(store.len(ToolKind::Hlint), 0);
}

#[test]
fn tool_kind_accepts_the_rows_of_its_table() {
    assert!(ToolKind::Fourmolu.accepts(&fourmolu_row("v", 1, 2, 3)));
    assert!(ToolKind::Nixfmt.accepts(&nixfmt_row("v", 3)));
    assert!(ToolKind::Hlint.accepts(&hlint_row("v", 1, 3, b"")));
    assert!(!ToolKind::Hlint.accepts(&nixfmt_row("v", 3)));
    assert!(!ToolKind::Nixfmt.accepts(&hlint_row("v", 1, 3, b"")));
}

#[test]
fn a_table_keeps_its_constraint() {
    let mut table = Table::new(ToolKind::Nixfmt);
    assert_eq!(table.len(), 0);
    assert_eq!(table.insert_or_ignore(nixfmt_row("n", 1)), Ok(true));
    assert_eq!(table.insert_or_ignore(nixfmt_row("n", 1)), Ok(false));
    assert_eq!(table.insert_or_ignore(nixfmt_row("n", 2)), Ok(true));
    assert_eq!(table.insert_or_ignore(hlint_row("n", 1, 2, b"")), Err(StoreError::SchemaMismatch));
    assert_eq!(table.len(), 2);
    assert!(table.find(&nixfmt_row("n", 2)).is_some());
    assert!(table.find(&nixfmt_row("n", 3)).is_none());
}

#[test]
fn columns_are_the_version_and_the_hashes_as_decimal_text() {
    assert_eq!(
        fourmolu_row("fourmolu 0.15", 1, u64::MAX, 0).columns(),
        vec!["fourmolu 0.15", "1", "18446744073709551615", "0"]
    );
    assert_eq!(nixfmt_row("nixfmt 0.6", 12345).columns(), vec!["nixfmt 0.6", "12345"]);
    assert_eq!(hlint_row("v3.8", 10, 20, b"[]").columns(), vec!["v3.8", "10", "20"]);
}

#[test]
fn rows_compare_by_key_and_by_constraint() {
    let row = fourmolu_row("v1", 1, 2, 3);
    assert!(row.same_key(&fourmolu_row("v1", 1, 2, 3)));
    assert!(!row.same_key(&fourmolu_row("v1", 1, 4, 3)));
    assert!(row.same_constraint(&fourmolu_row("v1", 1, 4, 3)));
    assert!(!row.same_constraint(&fourmolu_row("v1", 2, 2, 3)));
    assert!(!row.same_constraint(&hlint_row("v1", 1, 4, b"")));
    assert!(hlint_row("v1", 1, 3, b"a").same_key(&hlint_row("v1", 1, 3, b"b")));
}
