use sqlbrowse::model::check_database_path;
use sqlbrowse::paging::{check_table_exists, quote_identifier};
use sqlbrowse::state::{on_database_changed, query_table_data, select_table, ACTIVE_TABLE_LIMIT};
use sqlbrowse::{
    compute_columns, page_request, ActiveTableData, AppState, AsyncResource, CatalogEntry,
    DatabaseColumn, DatabaseError, DatabaseName, DatabaseRow, DatabaseTable, DatabaseTableBrowser,
    DatabaseTableQuery, ResourceCell, TablePaginationData,
};

fn table(name: &str) -> DatabaseTable {
    DatabaseTable { name: name.to_string(), sql: format!("CREATE TABLE {name}(id)") }
}

#[test]
fn identifiers_are_quoted_safely() {
    assert_eq!(quote_identifier("users"), "\"users\"");
    assert_eq!(quote_identifier("a\"b"), "\"a\"\"b\"");
    assert_eq!(quote_identifier("x\"; DROP TABLE y; --"), "\"x\"\"; DROP TABLE y; --\"");
    assert_eq!(quote_identifier(""), "\"\"");
}

#[test]
fn page_request_statements() {
    let q = DatabaseTableQuery { table: "my table".to_string() };
    let r = page_request(&q, 2, 4);
    assert_eq!(r.rows_statement, "SELECT * FROM \"my table\" LIMIT ? OFFSET ?");
    assert_eq!(r.count_statement, "SELECT COUNT(*) FROM \"my table\"");
    assert_eq!((r.limit, r.offset), (2, 4));
    let other = page_request(&q, 50, 0);
    assert_eq!(other.count_statement, r.count_statement);
}

#[test]
fn missing_table_is_not_found() {
    let entries = vec![CatalogEntry {
        kind: "table".to_string(),
        name: "users".to_string(),
        sql: String::new(),
    }];
    let ok = DatabaseTableQuery { table: "users".to_string() };
    assert!(check_table_exists(&entries, &ok).is_ok());
    let missing = DatabaseTableQuery { table: "ghosts".to_string() };
    match check_table_exists(&entries, &missing) {
        Err(DatabaseError::NotFound(name)) => assert_eq!(name, "ghosts"),
        other => panic!("unexpected {other:?}"),
    }
}

#[test]
fn pagination_counts_pages() {
    let mut p = TablePaginationData::new();
    assert_eq!((p.page, p.page_size, p.count), (0, 5, None));
    assert_eq!(p.total_pages(), 0);
    p.set_count(Some(11));
    assert_eq!(p.total_pages(), 3);
    p.set_count(Some(10));
    assert_eq!(p.total_pages(), 2);
    p.set_count(Some(0));
    assert_eq!(p.total_pages(), 0);
    p.set_count(Some(i64::MAX));
    assert_eq!(p.total_pages(), i64::MAX / 5 + 1);
}

#[test]
fn pagination_page_selection() {
    let mut p = TablePaginationData::new();
    assert!(!p.select_page(1));
    assert!(p.select_page(3));
    assert_eq!(p.page, 2);
    assert_eq!(p.offset(), Some(10));
    assert!(p.select_page(0));
    assert_eq!(p.page, 0);
    p.page = i64::MAX;
    assert_eq!(p.offset(), None);
}

#[test]
fn browser_loads_pages() {
    let mut b = DatabaseTableBrowser::new("users".to_string());
    assert!(b.load_table_page(false).is_none());
    let (start, req) = b.load_table_page(true).unwrap();
    assert_eq!((req.limit, req.offset), (5, 0));
    let data = ActiveTableData { rows: Vec::new(), count: 12 };
    assert!(b.page_loaded(start.handle, Ok(data)));
    assert_eq!(b.pagination.count, Some(12));
    assert_eq!(b.pagination.total_pages(), 3);
    let (next, req2) = b.select_page(2, true).unwrap();
    assert_eq!(req2.offset, 5);
    assert!(b.select_page(2, true).is_none());
    assert!(!b.page_loaded(start.handle, Err("stale".to_string())));
    assert!(b.page_loaded(next.handle, Err("gone".to_string())));
    assert!(matches!(b.load_state.state(), AsyncResource::Error(_)));
    assert!(b.load_table_page(false).is_none());
    assert_eq!(b.pagination.count, None);
}

#[test]
fn selection_keeps_listed_table() {
    let tables = vec![table("a"), table("b")];
    assert_eq!(select_table(&Some("b".to_string()), &tables), Some("b".to_string()));
    assert_eq!(select_table(&Some("gone".to_string()), &tables), Some("a".to_string()));
    assert_eq!(select_table(&None, &tables), Some("a".to_string()));
    assert_eq!(select_table(&Some("a".to_string()), &Vec::new()), None);
}

#[test]
fn database_change_reloads_tables() {
    let mut tables: ResourceCell<Vec<DatabaseTable>> = AsyncResource::new();
    let start = on_database_changed(&mut tables, true).unwrap();
    assert!(AsyncResource::finish_load(&mut tables, start.handle, Ok(vec![table("t")])));
    assert!(on_database_changed(&mut tables, false).is_none());
    assert!(matches!(tables.state(), AsyncResource::Idle));
}

#[test]
fn active_table_data_needs_database_and_selection() {
    let mut active: ResourceCell<ActiveTableData> = AsyncResource::new();
    assert!(query_table_data(&mut active, false, &Some("t".to_string())).is_none());
    assert!(query_table_data(&mut active, true, &None).is_none());
    let (start, req) = query_table_data(&mut active, true, &Some("t".to_string())).unwrap();
    assert_eq!((req.limit, req.offset), (ACTIVE_TABLE_LIMIT, 0));
    assert_eq!(req.rows_statement, "SELECT * FROM \"t\" LIMIT ? OFFSET ?");
    assert!(active.is_loading());
    assert_eq!(start.handle.id, 0);
}

#[test]
fn app_state_open_and_close() {
    let mut app: AppState<u8> = AppState::new();
    assert!(app.current_database().is_none());
    assert_eq!(app.database.loads_started(), 0);
    assert_eq!(app.set_database(1), None);
    assert_eq!(app.current_database(), Some(&1));
    // A failed open never reaches the store: the current database stays.
    let failed: Result<u8, String> = Err("locked".to_string());
    if let Ok(db) = failed {
        app.set_database(db);
    }
    assert_eq!(app.current_database(), Some(&1));
    assert_eq!(app.set_database(2), None);
    assert_eq!(app.current_database(), Some(&2));
    assert_eq!(app.close_database(), None);
    assert!(matches!(app.database.state(), AsyncResource::Idle));
}

#[test]
fn columns_come_from_first_row() {
    let row = DatabaseRow {
        value: vec![
            DatabaseColumn { name: "id".to_string(), value: "1".to_string() },
            DatabaseColumn { name: "name".to_string(), value: "NULL".to_string() },
        ],
    };
    assert_eq!(compute_columns(&vec![row.clone()]), vec!["id", "name"]);
    assert!(compute_columns(&Vec::new()).is_empty());
    assert_eq!(row.values(), vec!["1", "NULL"]);
}

#[test]
fn open_path_must_exist() {
    assert!(check_database_path(true, "/tmp/a.db").is_ok());
    match check_database_path(false, "/tmp/missing.db") {
        Err(DatabaseError::InvalidPath(m)) => {
            assert_eq!(m, "database path '/tmp/missing.db' is not a file")
        }
        other => panic!("unexpected {other:?}"),
    }
}

#[test]
fn database_names() {
    let n = DatabaseName::for_file(Some("a.db".to_string()), "/x/a.db".to_string(), "sqlite:///x/a.db".to_string());
    assert_eq!(n.primary, "a.db");
    assert_eq!(n.secondary, "sqlite:///x/a.db");
    let m = DatabaseName::for_file(None, "/".to_string(), "sqlite:///".to_string());
    assert_eq!(m.primary, "/");
    assert_eq!(DatabaseName::memory("sqlite::memory:".to_string()).primary, "Memory");
}
