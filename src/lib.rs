//! Database access core: the value model shared by every backend, the
//! decoding of native cell values into text, the catalog and paging rules of
//! the single-file engine, and the cancellable asynchronous resource through
//! which loaded values reach their consumers.

pub mod catalog;
pub mod decode;
pub mod executor;
pub mod lsp;
pub mod model;
pub mod paging;
pub mod resource;
pub mod sqlite;
pub mod state;
pub mod text;
pub mod ui;

pub use catalog::{catalog_statement, user_tables, CatalogEntry};
pub use decode::{value_to_string, NativeValue};
pub use executor::DatabaseSqlExecutor;
pub use lsp::{create_sql_lsp, BackendKind, KeywordCompletion, SqliteLsp};
pub use model::{
    compute_columns, DatabaseColumn, DatabaseError, DatabaseName, DatabaseRow, DatabaseTable,
    DatabaseTableQuery,
};
pub use paging::{page_request, ActiveTableData, TablePageRequest, TablePaginationData};
pub use resource::{AsyncResource, LoadHandle, LoadStart, ResourceCell};
pub use state::{AppState, DatabaseTableBrowser};
pub use ui::{t, CustomAssets, CustomIconName, Translated};
