use vstd::prelude::*;
use vstd::string::StrSliceExecFns;

use crate::catalog::CatalogEntry;
use crate::model::{DatabaseError, DatabaseRow, DatabaseTableQuery};
use crate::text::push_char;

verus! {

/// A name with every double quote doubled.
pub open spec fn escaped(s: Seq<char>) -> Seq<char>
    decreases s.len(),
{
    if s.len() == 0 {
        Seq::empty()
    } else if s.last() == '"' {
        escaped(s.drop_last()) + seq!['"', '"']
    } else {
        escaped(s.drop_last()).push(s.last())
    }
}

/// A name written as a quoted SQL identifier: it can hold any character and
/// is never read as anything but one name.
pub open spec fn quoted_identifier(s: Seq<char>) -> Seq<char> {
    seq!['"'] + escaped(s) + seq!['"']
}

/// The statement that reads one window of a table; the row limit and the
/// offset are bound as its two parameters, in that order.
pub open spec fn rows_statement_text(table: Seq<char>) -> Seq<char> {
    "SELECT * FROM "@ + quoted_identifier(table) + " LIMIT ? OFFSET ?"@
}

/// The statement that counts the rows of a table.
pub open spec fn count_statement_text(table: Seq<char>) -> Seq<char> {
    "SELECT COUNT(*) FROM "@ + quoted_identifier(table)
}

/// Writes a name as a quoted SQL identifier.
pub fn quote_identifier(name: &str) -> (r: String)
    ensures
        r@ == quoted_identifier(name@),
{
    let mut s = String::new();
    push_char(&mut s, '"');
    let n = name.unicode_len();
    let mut i: usize = 0;
    while i < n
        invariant
            n == name@.len(),
            i <= n,
            s@ == seq!['"'] + escaped(name@.subrange(0, i as int)),
        decreases n - i,
    {
        let c = name.get_char(i);
        let ghost next = name@.subrange(0, i as int + 1);
        assert(next.drop_last() =~= name@.subrange(0, i as int));
        assert(next.last() == c);
        if c == '"' {
            push_char(&mut s, '"');
            push_char(&mut s, '"');
        } else {
            push_char(&mut s, c);
        }
        assert(s@ =~= seq!['"'] + escaped(next));
        i = i + 1;
    }
    assert(name@.subrange(0, n as int) =~= name@);
    push_char(&mut s, '"');
    s
}

/// A paginated scan of one table, ready for the engine.
#[derive(Debug, Clone)]
pub struct TablePageRequest {
    /// Reads the window; bind `limit` then `offset`.
    pub rows_statement: String,
    /// Counts all rows of the table.
    pub count_statement: String,
    pub limit: i64,
    pub offset: i64,
}

/// Builds the statements of a paginated scan of `query.table`.
pub fn page_request(query: &DatabaseTableQuery, limit: i64, offset: i64) -> (r: TablePageRequest)
    requires
        limit >= 0,
        offset >= 0,
    ensures
        r.rows_statement@ == rows_statement_text(query.table@),
        r.count_statement@ == count_statement_text(query.table@),
        r.limit == limit,
        r.offset == offset,
{
    let quoted = quote_identifier(query.table.as_str());
    let mut rows_statement = String::from_str("SELECT * FROM ");
    rows_statement.append(quoted.as_str());
    rows_statement.append(" LIMIT ? OFFSET ?");
    let mut count_statement = String::from_str("SELECT COUNT(*) FROM ");
    count_statement.append(quoted.as_str());
    TablePageRequest { rows_statement, count_statement, limit, offset }
}

/// Whether the catalog holds a table of the given name.
pub open spec fn table_exists(entries: Seq<CatalogEntry>, table: Seq<char>) -> bool {
    exists|i: int| 0 <= i < entries.len() && entries[i].kind@ == "table"@ && #[trigger] entries[i].name@ == table
}

/// Checks that the scanned table exists; `NotFound` names it otherwise.
pub fn check_table_exists(entries: &Vec<CatalogEntry>, query: &DatabaseTableQuery) -> (r: Result<
    (),
    DatabaseError,
>)
    ensures
        r is Ok <==> table_exists(entries@, query.table@),
        r is Err ==> r->Err_0 == DatabaseError::NotFound(query.table),
{
    let table_kind = String::from_str("table");
    let mut i: usize = 0;
    while i < entries.len()
        invariant
            i <= entries.len(),
            table_kind@ == "table"@,
            forall|k: int|
                0 <= k < i ==> !(entries@[k].kind@ == "table"@ && #[trigger] entries@[k].name@
                    == query.table@),
        decreases entries.len() - i,
    {
        if entries[i].kind == table_kind && entries[i].name == query.table {
            return Ok(());
        }
        i = i + 1;
    }
    Err(DatabaseError::NotFound(query.table.clone()))
}

/// What a page load of a table holds: the rows of the window and the total
/// count of rows of the table.
#[derive(Debug, Clone)]
pub struct ActiveTableData {
    pub rows: Vec<DatabaseRow>,
    pub count: i64,
}

/// Rows per page when browsing a table.
pub const DEFAULT_PAGE_SIZE: i64 = 5;

/// Where a table browser stands: its zero-based page, the page size, and the
/// table's row count once a load has told it.
#[derive(Debug, Clone)]
pub struct TablePaginationData {
    pub page: i64,
    pub page_size: i64,
    pub count: Option<i64>,
}

/// Pages needed for `count` rows: `count / size` rounded up.
pub open spec fn pages_for(count: int, size: int) -> int {
    (count + size - 1) / size
}

impl TablePaginationData {
    pub open spec fn wf(&self) -> bool {
        &&& self.page >= 0
        &&& self.page_size > 0
        &&& self.count is Some ==> self.count->0 >= 0
    }

    /// The first page, of the default size, with no count yet.
    pub fn new() -> (r: TablePaginationData)
        ensures
            r.wf(),
            r.page == 0,
            r.page_size == DEFAULT_PAGE_SIZE,
            r.count is None,
    {
        TablePaginationData { page: 0, page_size: DEFAULT_PAGE_SIZE, count: None }
    }

    /// Offset of the first row of the current page, `None` where it does
    /// not fit in an `i64`.
    pub fn offset(&self) -> (r: Option<i64>)
        requires
            self.wf(),
        ensures
            r is Some <==> self.page * self.page_size <= i64::MAX,
            r is Some ==> r->0 == self.page * self.page_size,
    {
        self.page.checked_mul(self.page_size)
    }

    /// Number of pages: the count divided by the page size, rounded up; 0
    /// while the count is unknown.
    pub fn total_pages(&self) -> (r: i64)
        requires
            self.wf(),
        ensures
            self.count is None ==> r == 0,
            self.count is Some ==> r == pages_for(self.count->0 as int, self.page_size as int),
    {
        match self.count {
            None => 0,
            Some(rows) => {
                let whole = rows / self.page_size;
                if rows % self.page_size == 0 {
                    proof {
                        assert(pages_for(rows as int, self.page_size as int) == whole) by (
                        nonlinear_arith)
                            requires
                                rows >= 0,
                                self.page_size > 0,
                                whole == rows / self.page_size,
                                rows % self.page_size == 0,
                        ;
                    }
                    whole
                } else {
                    proof {
                        assert(pages_for(rows as int, self.page_size as int) == whole + 1) by (
                        nonlinear_arith)
                            requires
                                rows >= 0,
                                self.page_size > 0,
                                whole == rows / self.page_size,
                                rows % self.page_size != 0,
                        ;
                        assert(whole < i64::MAX) by (nonlinear_arith)
                            requires
                                rows >= 0,
                                rows <= i64::MAX,
                                self.page_size > 0,
                                whole == rows / self.page_size,
                                rows % self.page_size != 0,
                        ;
                    }
                    whole + 1
                }
            },
        }
    }

    /// Goes to the page a pager shows as `shown` (one-based, 0 read as the
    /// first). Returns whether the page changed, so that it must be loaded.
    pub fn select_page(&mut self, shown: i64) -> (changed: bool)
        requires
            old(self).wf(),
            shown >= 0,
        ensures
            final(self).wf(),
            final(self).page == if shown > 0 { shown - 1 } else { 0 },
            final(self).page_size == old(self).page_size,
            final(self).count == old(self).count,
            changed == (final(self).page != old(self).page),
    {
        let page: i64 = if shown > 0 { shown - 1 } else { 0 };
        if self.page == page {
            return false;
        }
        self.page = page;
        true
    }

    /// Records the outcome of a load: the table's row count.
    pub fn set_count(&mut self, count: Option<i64>)
        requires
            old(self).wf(),
            count is Some ==> count->0 >= 0,
        ensures
            final(self).wf(),
            final(self).page == old(self).page,
            final(self).page_size == old(self).page_size,
            final(self).count == count,
    {
        self.count = count;
    }
}

} // verus!
