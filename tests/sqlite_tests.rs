use sqlbrowse::sqlite::{
    catalog_entries, count_from_rows, decode_rows, read_cell, tables_from_catalog,
};
use sqlbrowse::{
    catalog_statement, page_request, value_to_string, AsyncResource, DatabaseError,
    DatabaseTableQuery, ResourceCell,
};
use sqlx::sqlite::{SqliteConnectOptions, SqliteConnection, SqliteRow};
use sqlx::{Connection, Row};

fn runtime() -> tokio::runtime::Runtime {
    tokio::runtime::Builder::new_current_thread().enable_all().build().unwrap()
}

async fn users_database() -> SqliteConnection {
    let options = SqliteConnectOptions::new().in_memory(true);
    let mut conn = SqliteConnection::connect_with(&options).await.unwrap();
    for statement in [
        "CREATE TABLE users(id, name)",
        "INSERT INTO users(id, name) VALUES (1, 'ada')",
        "INSERT INTO users(id, name) VALUES (2, NULL)",
        "INSERT INTO users(id, name) VALUES (3, 'grace')",
    ] {
        sqlx::query(statement).execute(&mut conn).await.unwrap();
    }
    conn
}

async fn fetch(conn: &mut SqliteConnection, statement: &str) -> Vec<SqliteRow> {
    sqlx::query(statement).fetch_all(conn).await.unwrap()
}

#[test]
fn users_scenario() {
    runtime().block_on(async {
        let mut conn = users_database().await;
        let catalog = fetch(&mut conn, catalog_statement()).await;
        let tables = tables_from_catalog(&catalog).unwrap();
        assert_eq!(tables.len(), 1);
        assert_eq!(tables[0].name, "users");
        assert_eq!(tables[0].sql, "CREATE TABLE users(id, name)");

        let query = DatabaseTableQuery { table: "users".to_string() };
        let req = page_request(&query, 2, 0);
        let rows = sqlx::query(&req.rows_statement)
            .bind(req.limit)
            .bind(req.offset)
            .fetch_all(&mut conn)
            .await
            .unwrap();
        let page = decode_rows(&rows);
        assert_eq!(page.len(), 2);
        let count_rows = fetch(&mut conn, &req.count_statement).await;
        assert_eq!(count_from_rows(&count_rows).unwrap(), 3);

        let all = decode_rows(&fetch(&mut conn, "SELECT id, name FROM users ORDER BY id").await);
        assert_eq!(all.len(), 3);
        assert_eq!(all[1].value[0].name, "id");
        assert_eq!(all[1].value[0].value, "2");
        assert_eq!(all[1].value[1].name, "name");
        assert_eq!(all[1].value[1].value, "NULL");
        assert_eq!(all[0].value[1].value, "ada");
    });
}

#[test]
fn count_ignores_window() {
    runtime().block_on(async {
        let mut conn = users_database().await;
        let query = DatabaseTableQuery { table: "users".to_string() };
        for (limit, offset) in [(1, 0), (2, 1), (50, 0), (0, 10)] {
            let req = page_request(&query, limit, offset);
            let rows = sqlx::query(&req.rows_statement)
                .bind(req.limit)
                .bind(req.offset)
                .fetch_all(&mut conn)
                .await
                .unwrap();
            assert!(rows.len() as i64 <= limit);
            let count_rows = fetch(&mut conn, &req.count_statement).await;
            assert_eq!(count_from_rows(&count_rows).unwrap(), 3);
        }
    });
}

#[test]
fn cells_decode_by_kind() {
    runtime().block_on(async {
        let options = SqliteConnectOptions::new().in_memory(true);
        let mut conn = SqliteConnection::connect_with(&options).await.unwrap();
        let rows = fetch(&mut conn, "SELECT NULL, 42, -7, 'text', 2.5, x'0102', x'FF00'").await;
        let row = &rows[0];
        let texts: Vec<String> =
            (0..row.len()).map(|i| value_to_string(&read_cell(row, i))).collect();
        assert_eq!(texts[0], "NULL");
        assert_eq!(texts[1].parse::<i64>().unwrap(), 42);
        assert_eq!(texts[2].parse::<i64>().unwrap(), -7);
        assert_eq!(texts[3], "text");
        assert_eq!(texts[4].parse::<f64>().unwrap(), 2.5);
        assert_eq!(texts[5], "\u{1}\u{2}");
        assert_eq!(texts[6], "[255, 0]");
        let blob = read_cell(row, 6);
        assert_eq!(blob.bytes, Some(vec![255, 0]));
        assert_eq!(blob.integer, None);
        assert_eq!(read_cell(row, 1).integer, Some(42));
        assert_eq!(read_cell(row, 4).integer, None);
    });
}

#[test]
fn integers_and_booleans_read_as_decimal() {
    runtime().block_on(async {
        let options = SqliteConnectOptions::new().in_memory(true);
        let mut conn = SqliteConnection::connect_with(&options).await.unwrap();
        let rows = fetch(
            &mut conn,
            "SELECT 9223372036854775807, -9223372036854775808, 0, 1 = 1, 1 = 2",
        )
        .await;
        let decoded = decode_rows(&rows);
        let texts: Vec<&str> = decoded[0].value.iter().map(|c| c.value.as_str()).collect();
        assert_eq!(texts, vec!["9223372036854775807", "-9223372036854775808", "0", "1", "0"]);
        assert_eq!(texts[1].parse::<i64>().unwrap(), i64::MIN);
        assert!(texts[3].parse::<i64>().unwrap() != 0);
        assert!(texts[4].parse::<i64>().unwrap() == 0);
    });
}

#[test]
fn mixed_literal_query() {
    runtime().block_on(async {
        let options = SqliteConnectOptions::new().in_memory(true);
        let mut conn = SqliteConnection::connect_with(&options).await.unwrap();
        let rows = fetch(&mut conn, "SELECT NULL AS a, 42 AS b, 'abc' AS c, x'FF00' AS d").await;
        let decoded = decode_rows(&rows);
        assert_eq!(decoded.len(), 1);
        let cells: Vec<(String, String)> =
            decoded[0].value.iter().map(|c| (c.name.clone(), c.value.clone())).collect();
        let expected = vec![("a", "NULL"), ("b", "42"), ("c", "abc"), ("d", "[255, 0]")];
        let expected: Vec<(String, String)> =
            expected.into_iter().map(|(n, v)| (n.to_string(), v.to_string())).collect();
        assert_eq!(cells, expected);
    });
}

#[test]
fn null_row_query() {
    runtime().block_on(async {
        let mut conn = users_database().await;
        let rows = decode_rows(&fetch(&mut conn, "SELECT id, name FROM users WHERE id = 2").await);
        assert_eq!(rows.len(), 1);
        assert_eq!(rows[0].value.len(), 2);
        assert_eq!((rows[0].value[0].name.as_str(), rows[0].value[0].value.as_str()), ("id", "2"));
        assert_eq!((rows[0].value[1].name.as_str(), rows[0].value[1].value.as_str()), ("name", "NULL"));
    });
}

#[test]
fn catalog_rows_read_as_entries() {
    runtime().block_on(async {
        let mut conn = users_database().await;
        sqlx::query("CREATE INDEX users_id ON users(id)").execute(&mut conn).await.unwrap();
        let entries = catalog_entries(&fetch(&mut conn, catalog_statement()).await).unwrap();
        let kinds: Vec<(&str, &str)> =
            entries.iter().map(|e| (e.kind.as_str(), e.name.as_str())).collect();
        assert_eq!(kinds, vec![("table", "users"), ("index", "users_id")]);
        let malformed = fetch(&mut conn, "SELECT 'table', NULL, ''").await;
        assert!(matches!(catalog_entries(&malformed), Err(DatabaseError::BackendError(_))));
        assert!(matches!(tables_from_catalog(&malformed), Err(DatabaseError::BackendError(_))));
        let empty = fetch(&mut conn, "SELECT 1 WHERE 0").await;
        assert!(matches!(count_from_rows(&empty), Err(DatabaseError::BackendError(_))));
    });
}

#[test]
fn invalid_query_scenario() {
    runtime().block_on(async {
        let mut conn = users_database().await;
        let mut results: ResourceCell<Vec<sqlbrowse::DatabaseRow>> = AsyncResource::new();
        assert!(matches!(results.state(), AsyncResource::Idle));
        let start = AsyncResource::load(&mut results);
        assert!(matches!(results.state(), AsyncResource::Loading(_)));
        let outcome = match sqlx::query("not valid sql").fetch_all(&mut conn).await {
            Ok(rows) => Ok(decode_rows(&rows)),
            Err(e) => Err(DatabaseError::QueryError(e.to_string())),
        };
        let message = match &outcome {
            Err(DatabaseError::QueryError(m)) => m.clone(),
            _ => panic!("expected a query error"),
        };
        assert!(!message.is_empty());
        assert!(AsyncResource::finish_load(
            &mut results,
            start.handle,
            outcome.map_err(|e| e.message().clone())
        ));
        match results.state() {
            AsyncResource::Error(m) => assert_eq!(m, &message),
            _ => panic!("expected the error state"),
        }
    });
}

#[test]
fn missing_table_scan_fails() {
    runtime().block_on(async {
        let mut conn = users_database().await;
        let query = DatabaseTableQuery { table: "ghosts".to_string() };
        let req = page_request(&query, 5, 0);
        let result = sqlx::query(&req.rows_statement)
            .bind(req.limit)
            .bind(req.offset)
            .fetch_all(&mut conn)
            .await;
        assert!(result.is_err());
    });
}
