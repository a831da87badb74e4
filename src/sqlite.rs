use vstd::prelude::*;

use sqlx::sqlite::SqliteRow;

use crate::catalog::{user_table_views, user_tables, CatalogEntry, EntryView};
use crate::decode::{bytes_text, decoded, unhandled_text, value_to_string, NativeValue};
use crate::model::{DatabaseColumn, DatabaseError, DatabaseRow, DatabaseTable};
use crate::text::{decimal_text, lemma_parse_decimal_text, parse_decimal};

verus! {

#[verifier::external_type_specification]
#[verifier::external_body]
pub struct ExSqliteRow(sqlx::sqlite::SqliteRow);

/// What the engine holds in one cell of a result row: whether it is SQL
/// NULL, the name of its storage class, its bytes read as UTF-8 text (`None`
/// where they are not valid UTF-8), its integer conversion, its bytes, and
/// the name of its column.
pub type CellFacts = (bool, Seq<char>, Option<Seq<char>>, i64, Seq<u8>, Seq<char>);

/// The cells a result row holds, in result column order. The row owns its
/// values, so what it answers depends on the row alone.
pub uninterp spec fn sqlite_row_cells(row: SqliteRow) -> Seq<CellFacts>;

/// Relies on sqlx's `Row::len`: the number of columns, one cell each.
#[verifier::external_body]
fn row_width(row: &SqliteRow) -> (r: usize)
    ensures
        r == sqlite_row_cells(*row).len(),
{
    sqlx::Row::len(row)
}

/// Relies on sqlx's `Row::try_get_raw` with a position (it succeeds below
/// `Row::len`) and `ValueRef::is_null`.
#[verifier::external_body]
fn row_cell_is_null(row: &SqliteRow, i: usize) -> (r: Option<bool>)
    requires
        i < sqlite_row_cells(*row).len(),
    ensures
        r == Some(sqlite_row_cells(*row)[i as int].0),
{
    sqlx::Row::try_get_raw(row, i).ok().map(|v| sqlx::ValueRef::is_null(&v))
}

/// Relies on sqlx's `Row::try_get_raw`, `ValueRef::type_info` (the storage
/// class the engine reports for a non-null value) and `TypeInfo::name`.
#[verifier::external_body]
fn row_cell_storage(row: &SqliteRow, i: usize) -> (r: Option<String>)
    requires
        i < sqlite_row_cells(*row).len(),
    ensures
        r is Some,
        r->0@ == sqlite_row_cells(*row)[i as int].1,
{
    sqlx::Row::try_get_raw(row, i).ok().map(
        |v| sqlx::TypeInfo::name(&*sqlx::ValueRef::type_info(&v)).to_string(),
    )
}

/// Relies on sqlx's `Row::try_get_raw` and `Decode<Sqlite>` for `String`:
/// the cell's bytes as UTF-8 text, `None` where they are not valid UTF-8.
/// The engine gives the bytes of a non-null INTEGER cell as its value in
/// plain decimal (`sqlite3Int64ToText`).
#[verifier::external_body]
fn row_cell_text(row: &SqliteRow, i: usize) -> (r: Option<String>)
    requires
        i < sqlite_row_cells(*row).len(),
    ensures
        r is Some <==> sqlite_row_cells(*row)[i as int].2 is Some,
        r is Some ==> r->0@ == sqlite_row_cells(*row)[i as int].2->0,
        !sqlite_row_cells(*row)[i as int].0 && sqlite_row_cells(*row)[i as int].1 == "INTEGER"@
            ==> r is Some && r->0@ == decimal_text(sqlite_row_cells(*row)[i as int].3 as int),
{
    sqlx::Row::try_get_raw(row, i).ok().and_then(
        |v| <String as sqlx::Decode<'_, sqlx::Sqlite>>::decode(v).ok(),
    )
}

/// Relies on sqlx's `Row::try_get_raw` and `Decode<Sqlite>` for `i64`,
/// which reads the engine's integer conversion and never fails.
#[verifier::external_body]
fn row_cell_integer(row: &SqliteRow, i: usize) -> (r: Option<i64>)
    requires
        i < sqlite_row_cells(*row).len(),
    ensures
        r == Some(sqlite_row_cells(*row)[i as int].3),
{
    sqlx::Row::try_get_raw(row, i).ok().and_then(
        |v| <i64 as sqlx::Decode<'_, sqlx::Sqlite>>::decode(v).ok(),
    )
}

/// Relies on sqlx's `Row::try_get_raw` and `Decode<Sqlite>` for `Vec<u8>`,
/// which copies the cell's bytes and never fails.
#[verifier::external_body]
fn row_cell_blob(row: &SqliteRow, i: usize) -> (r: Option<Vec<u8>>)
    requires
        i < sqlite_row_cells(*row).len(),
    ensures
        r is Some,
        r->0@ == sqlite_row_cells(*row)[i as int].4,
{
    sqlx::Row::try_get_raw(row, i).ok().and_then(
        |v| <Vec<u8> as sqlx::Decode<'_, sqlx::Sqlite>>::decode(v).ok(),
    )
}

/// Relies on sqlx's `Row::columns` (as many as `Row::len`) and
/// `Column::name`: the name of the column at a position.
#[verifier::external_body]
fn row_column_name(row: &SqliteRow, i: usize) -> (r: String)
    requires
        i < sqlite_row_cells(*row).len(),
    ensures
        r@ == sqlite_row_cells(*row)[i as int].5,
{
    sqlx::Column::name(&sqlx::Row::columns(row)[i]).to_string()
}

/// The text a cell decodes to: `NULL`, else its UTF-8 text, else the
/// decimal integer of INTEGER storage, else the byte list of BLOB storage,
/// else the placeholder naming its storage class.
pub open spec fn cell_text(c: CellFacts) -> Seq<char> {
    if c.0 {
        "NULL"@
    } else if c.2 is Some {
        c.2->0
    } else if c.1 == "INTEGER"@ {
        decimal_text(c.3 as int)
    } else if c.1 == "BLOB"@ {
        bytes_text(c.4)
    } else {
        unhandled_text(c.1)
    }
}

/// A decoded row is the row of cells it was read from: one column per
/// cell, named after the cell's column, holding the cell's text, which for
/// an integer is its value in decimal.
pub open spec fn row_decoded(r: DatabaseRow, cells: Seq<CellFacts>) -> bool {
    &&& r.value.len() == cells.len()
    &&& forall|k: int|
        0 <= k < cells.len() ==> (#[trigger] r.value@[k]).name@ == cells[k].5 && r.value@[k].value@
            == cell_text(cells[k]) && (!cells[k].0 && cells[k].1 == "INTEGER"@ ==> r.value@[k].value@
            == decimal_text(cells[k].3 as int))
}

/// Runs the decode attempts on one cell. The integer attempt succeeds for
/// INTEGER storage only, the byte attempt for BLOB storage only; the engine
/// renders every REAL value as text, so the floating-point and boolean
/// attempts are never needed.
pub fn read_cell(row: &SqliteRow, i: usize) -> (r: NativeValue)
    requires
        i < sqlite_row_cells(*row).len(),
    ensures
        ({
            let c = sqlite_row_cells(*row)[i as int];
            &&& r.is_null == c.0
            &&& r.type_tag@ == c.1
            &&& (r.text is Some <==> !c.0 && c.2 is Some)
            &&& r.text is Some ==> r.text->0@ == c.2->0
            &&& (r.integer is Some <==> !c.0 && c.1 == "INTEGER"@)
            &&& r.integer is Some ==> r.integer->0 == c.3
            &&& r.real is None
            &&& r.boolean is None
            &&& (r.bytes is Some <==> !c.0 && c.1 == "BLOB"@)
            &&& r.bytes is Some ==> r.bytes->0@ == c.4
            &&& decoded(r) == cell_text(c)
            &&& !c.0 && c.1 == "INTEGER"@ ==> decoded(r) == decimal_text(c.3 as int) && parse_decimal(
                decoded(r),
            ) == c.3 as int
        }),
{
    let is_null = match row_cell_is_null(row, i) {
        Some(b) => b,
        None => true,
    };
    let type_tag = match row_cell_storage(row, i) {
        Some(s) => s,
        None => String::new(),
    };
    let integer_storage = String::from_str("INTEGER");
    let blob_storage = String::from_str("BLOB");
    proof {
        reveal_strlit("INTEGER");
        reveal_strlit("BLOB");
    }
    let text = if is_null {
        None
    } else {
        row_cell_text(row, i)
    };
    let integer = if !is_null && type_tag == integer_storage {
        row_cell_integer(row, i)
    } else {
        None
    };
    let bytes = if !is_null && type_tag == blob_storage {
        row_cell_blob(row, i)
    } else {
        None
    };
    proof {
        lemma_parse_decimal_text(sqlite_row_cells(*row)[i as int].3 as int);
    }
    NativeValue { is_null, text, integer, real: None, boolean: None, bytes, type_tag }
}

/// Decodes every cell of a result row, named after its column, in result
/// order.
pub fn decode_row(row: &SqliteRow) -> (r: DatabaseRow)
    ensures
        row_decoded(r, sqlite_row_cells(*row)),
{
    let n = row_width(row);
    let ghost cells = sqlite_row_cells(*row);
    let mut value: Vec<DatabaseColumn> = Vec::new();
    let mut i: usize = 0;
    while i < n
        invariant
            n == cells.len(),
            cells == sqlite_row_cells(*row),
            i <= n,
            value.len() == i,
            forall|k: int|
                0 <= k < i ==> (#[trigger] value@[k]).name@ == cells[k].5 && value@[k].value@
                    == cell_text(cells[k]) && (!cells[k].0 && cells[k].1 == "INTEGER"@
                    ==> value@[k].value@ == decimal_text(cells[k].3 as int)),
        decreases n - i,
    {
        let name = row_column_name(row, i);
        let native = read_cell(row, i);
        let text = value_to_string(&native);
        value.push(DatabaseColumn { name, value: text });
        i = i + 1;
    }
    DatabaseRow { value }
}

/// Decodes every row of a result, in result order.
pub fn decode_rows(rows: &Vec<SqliteRow>) -> (r: Vec<DatabaseRow>)
    ensures
        r.len() == rows.len(),
        forall|i: int| 0 <= i < rows.len() ==> row_decoded(#[trigger] r@[i], sqlite_row_cells(rows@[i])),
{
    let mut r: Vec<DatabaseRow> = Vec::new();
    let mut i: usize = 0;
    while i < rows.len()
        invariant
            i <= rows.len(),
            r.len() == i,
            forall|k: int| 0 <= k < i ==> row_decoded(#[trigger] r@[k], sqlite_row_cells(rows@[k])),
        decreases rows.len() - i,
    {
        r.push(decode_row(&rows[i]));
        i = i + 1;
    }
    r
}

/// The text of a cell, where it is a non-null text value.
pub open spec fn cell_string(c: CellFacts) -> Option<Seq<char>> {
    if c.0 {
        None
    } else {
        c.2
    }
}

/// The catalog entry a row of `catalog_statement` describes: its first
/// three cells, where all are non-null texts.
pub open spec fn row_entry(cells: Seq<CellFacts>) -> Option<EntryView> {
    if cells.len() >= 3 && cell_string(cells[0]) is Some && cell_string(cells[1]) is Some
        && cell_string(cells[2]) is Some {
        Some((cell_string(cells[0])->0, cell_string(cells[1])->0, cell_string(cells[2])->0))
    } else {
        None
    }
}

/// Whether every row of a catalog listing describes an entry.
pub open spec fn catalog_readable(rows: Seq<SqliteRow>) -> bool {
    forall|i: int| 0 <= i < rows.len() ==> (#[trigger] row_entry(sqlite_row_cells(rows[i]))) is Some
}

/// The entries a readable catalog listing describes, in listing order.
pub open spec fn catalog_views(rows: Seq<SqliteRow>) -> Seq<EntryView> {
    rows.map_values(|row: SqliteRow| row_entry(sqlite_row_cells(row))->0)
}

fn text_cell(row: &SqliteRow, i: usize) -> (r: Option<String>)
    requires
        i < sqlite_row_cells(*row).len(),
    ensures
        r is Some <==> cell_string(sqlite_row_cells(*row)[i as int]) is Some,
        r is Some ==> r->0@ == cell_string(sqlite_row_cells(*row)[i as int])->0,
{
    match row_cell_is_null(row, i) {
        Some(false) => row_cell_text(row, i),
        _ => None,
    }
}

/// Reads one row of the schema catalog (kind, name, statement), as listed
/// by `catalog_statement`; `None` where the row does not hold three texts.
pub fn catalog_entry(row: &SqliteRow) -> (r: Option<CatalogEntry>)
    ensures
        r is Some <==> row_entry(sqlite_row_cells(*row)) is Some,
        r is Some ==> r->0@ == row_entry(sqlite_row_cells(*row))->0,
{
    if row_width(row) < 3 {
        return None;
    }
    let kind = text_cell(row, 0);
    let name = text_cell(row, 1);
    let sql = text_cell(row, 2);
    match (kind, name, sql) {
        (Some(kind), Some(name), Some(sql)) => Some(CatalogEntry { kind, name, sql }),
        _ => None,
    }
}

/// Reads a schema catalog listing; `BackendError` where a row does not
/// describe an entry.
pub fn catalog_entries(rows: &Vec<SqliteRow>) -> (r: Result<Vec<CatalogEntry>, DatabaseError>)
    ensures
        r is Ok <==> catalog_readable(rows@),
        r is Ok ==> r->Ok_0@.map_values(|e: CatalogEntry| e@) == catalog_views(rows@),
        r is Err ==> r->Err_0 is BackendError,
{
    let mut entries: Vec<CatalogEntry> = Vec::new();
    let mut i: usize = 0;
    while i < rows.len()
        invariant
            i <= rows.len(),
            forall|k: int| 0 <= k < i ==> (#[trigger] row_entry(sqlite_row_cells(rows@[k]))) is Some,
            entries@.map_values(|e: CatalogEntry| e@) == catalog_views(rows@.subrange(0, i as int)),
        decreases rows.len() - i,
    {
        match catalog_entry(&rows[i]) {
            Some(e) => {
                let ghost before = entries@;
                entries.push(e);
                assert(entries@.map_values(|e: CatalogEntry| e@) =~= before.map_values(
                    |e: CatalogEntry| e@,
                ).push(e@));
                assert(catalog_views(rows@.subrange(0, i as int + 1)) =~= catalog_views(
                    rows@.subrange(0, i as int),
                ).push(e@));
            },
            None => {
                return Err(DatabaseError::BackendError(String::from_str("malformed catalog row")));
            },
        }
        i = i + 1;
    }
    assert(rows@.subrange(0, rows.len() as int) =~= rows@);
    Ok(entries)
}

/// The user tables of a database from the rows of its schema catalog,
/// sorted by name; `BackendError` where a catalog row cannot be read.
pub fn tables_from_catalog(rows: &Vec<SqliteRow>) -> (r: Result<Vec<DatabaseTable>, DatabaseError>)
    ensures
        r is Ok <==> catalog_readable(rows@),
        r is Ok ==> crate::catalog::sorted_by_name(r->Ok_0@),
        r is Ok ==> r->Ok_0@.map_values(|t: DatabaseTable| t@).to_multiset() == user_table_views(
            catalog_views(rows@),
        ).to_multiset(),
        r is Ok ==> forall|i: int|
            0 <= i < r->Ok_0.len() ==> !crate::catalog::is_internal_name(#[trigger] r->Ok_0@[i].name@),
        r is Err ==> r->Err_0 is BackendError,
{
    let entries = catalog_entries(rows)?;
    let tables = user_tables(&entries);
    assert forall|i: int| 0 <= i < tables.len() implies !crate::catalog::is_internal_name(
        #[trigger] tables@[i].name@,
    ) by {
        crate::catalog::lemma_listed_tables_are_user_tables(
            entries@.map_values(|e: CatalogEntry| e@),
            tables@,
            i,
        );
    }
    Ok(tables)
}

/// Reads the result of a count: the integer in the first cell of the first
/// row; `BackendError` where there is no such cell.
pub fn count_from_rows(rows: &Vec<SqliteRow>) -> (r: Result<i64, DatabaseError>)
    ensures
        r is Ok <==> rows.len() > 0 && sqlite_row_cells(rows@[0]).len() > 0,
        r is Ok ==> r->Ok_0 == sqlite_row_cells(rows@[0])[0].3,
        r is Err ==> r->Err_0 is BackendError,
{
    if rows.len() == 0 || row_width(&rows[0]) == 0 {
        return Err(DatabaseError::BackendError(String::from_str("count returned no row")));
    }
    match row_cell_integer(&rows[0], 0) {
        Some(n) => Ok(n),
        None => Err(DatabaseError::BackendError(String::from_str("count returned no row"))),
    }
}

} // verus!
