use sqlbrowse::lsp::sql_keywords;
use sqlbrowse::{
    create_sql_lsp, t, BackendKind, CustomAssets, CustomIconName, DatabaseError,
    DatabaseSqlExecutor, SqliteLsp,
};

#[test]
fn translation_falls_back_to_key() {
    let tr = t("no-active-database.title");
    assert_eq!(tr.key, "no-active-database.title");
    assert_eq!(tr.text(None), "no-active-database.title");
    assert_eq!(tr.text(Some("No database".to_string())), "No database");
}

#[test]
fn icon_path() {
    assert_eq!(CustomIconName::Cable.path(), "icons/cable.svg");
}

#[test]
fn asset_loading_rules() {
    let assets = CustomAssets;
    assert_eq!(assets.load("", Some(vec![1])), Ok(None));
    assert_eq!(assets.load("icons/cable.svg", Some(vec![1, 2])), Ok(Some(vec![1, 2])));
    assert_eq!(
        assets.load("icons/none.svg", None),
        Err("could not find asset at path \"icons/none.svg\"".to_string())
    );
    let names = vec!["icons/cable.svg".to_string(), "fonts/a.ttf".to_string(), "icons/b.svg".to_string()];
    assert_eq!(assets.list("icons/", &names), vec!["icons/cable.svg", "icons/b.svg"]);
    assert_eq!(assets.list("", &names).len(), 3);
}

#[test]
fn keyword_completions_extend_trigger() {
    let lsp = SqliteLsp::new();
    assert!(lsp.is_completion_trigger());
    let labels: Vec<String> = lsp.completions("SEL").into_iter().map(|c| c.label).collect();
    assert_eq!(labels, vec!["SELECT"]);
    let current: Vec<String> = lsp.completions("CURRENT").into_iter().map(|c| c.label).collect();
    assert_eq!(current, vec!["CURRENT_DATE", "CURRENT_TIME", "CURRENT_TIMESTAMP"]);
    assert!(lsp.completions("SELECT").is_empty());
    assert!(lsp.completions("").is_empty());
    let c = &lsp.completions("WIT")[0];
    assert_eq!(c.label, "WITH");
    assert_eq!(c.detail, "SQLite keyword: WITH");
    assert_eq!(c.sort_text, "0WITH");
    assert_eq!(sql_keywords().len(), 147);
}

#[test]
fn completion_backend_dispatch() {
    let lsp = create_sql_lsp(&BackendKind::Sqlite).unwrap();
    assert_eq!(lsp.keywords, sql_keywords());
    match create_sql_lsp(&BackendKind::Other("postgres".to_string())) {
        Err(DatabaseError::UnsupportedBackend(name)) => assert_eq!(name, "postgres"),
        _ => panic!("expected an unsupported backend"),
    }
}

#[test]
fn executor_formats_query() {
    let mut ex = DatabaseSqlExecutor::new();
    ex.query = "select id, name from users where id = 1".to_string();
    ex.format_query();
    assert_ne!(ex.query, "select id, name from users where id = 1");
    assert!(ex.query.contains('\n'));
    assert!(ex.query.starts_with("select"));
}

#[test]
fn executor_runs_only_with_database() {
    let mut ex = DatabaseSqlExecutor::new();
    ex.query = "SELECT 1".to_string();
    assert!(ex.perform_query(false).is_none());
    let (start, text) = ex.perform_query(true).unwrap();
    assert_eq!(text, "SELECT 1");
    assert!(ex.query_finished(start.handle, Err("boom".to_string())));
    assert_eq!(ex.database_changed(), None);
}
