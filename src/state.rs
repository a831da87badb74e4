use vstd::prelude::*;

use crate::model::{DatabaseTable, DatabaseTableQuery};
use crate::paging::{page_request, ActiveTableData, TablePageRequest, TablePaginationData};
use crate::resource::{AsyncResource, LoadHandle, LoadStart, ResourceCell};

verus! {

/// The slot that holds the current database, of handle type `D`: at most
/// one, loaded through an `AsyncResource`.
pub struct AppState<D> {
    pub database: ResourceCell<D>,
}

impl<D> AppState<D> {
    /// An empty slot.
    pub fn new() -> (r: AppState<D>)
        ensures
            r.database@.wf(),
            r.database@.state == AsyncResource::<D>::Idle,
            r.database@.next_id == 0,
    {
        AppState { database: AsyncResource::new() }
    }

    /// The current database, where one is loaded.
    pub fn current_database(&self) -> (r: Option<&D>)
        ensures
            r is Some <==> self.database@.state is Loaded,
            r is Some ==> *r->0 == self.database@.state->Loaded_0,
    {
        self.database.value()
    }

    /// Makes `database` the current database, replacing the previous one
    /// (and abandoning a load in flight). A caller opens the database first
    /// and calls this only once it opened, so a failed open leaves the
    /// current database in place.
    pub fn set_database(&mut self, database: D) -> (cancelled: Option<LoadHandle>)
        requires
            old(self).database@.wf(),
        ensures
            final(self).database@.wf(),
            final(self).database@ == old(self).database@.moved_to(AsyncResource::Loaded(database)),
            cancelled == old(self).database@.in_flight(),
    {
        AsyncResource::set_value(&mut self.database, database)
    }

    /// Closes the current database.
    pub fn close_database(&mut self) -> (cancelled: Option<LoadHandle>)
        requires
            old(self).database@.wf(),
        ensures
            final(self).database@.wf(),
            final(self).database@ == old(self).database@.moved_to(AsyncResource::Idle),
            cancelled == old(self).database@.in_flight(),
    {
        AsyncResource::set_idle(&mut self.database)
    }
}

/// The table list of the current database is stale once the database
/// changes: reload it from the new one, or reset it where there is none.
pub fn on_database_changed(tables: &mut ResourceCell<Vec<DatabaseTable>>, database_open: bool) -> (r:
    Option<LoadStart>)
    requires
        old(tables)@.wf(),
        old(tables)@.next_id < u64::MAX,
    ensures
        final(tables)@.wf(),
        database_open ==> final(tables)@ == old(tables)@.started() && r is Some && r->0.handle
            == final(tables)@.in_flight()->0,
        !database_open ==> final(tables)@ == old(tables)@.moved_to(AsyncResource::Idle) && r is None,
{
    if database_open {
        Some(AsyncResource::load(tables))
    } else {
        AsyncResource::set_idle(tables);
        None
    }
}

/// Whether a table of the given name is in the list.
pub open spec fn lists_table(tables: Seq<DatabaseTable>, name: Seq<char>) -> bool {
    exists|i: int| 0 <= i < tables.len() && #[trigger] tables[i].name@ == name
}

/// The table to show after the table list changed: the selected one while
/// it is still listed, else the first listed, else none.
pub open spec fn next_selection(current: Option<String>, tables: Seq<DatabaseTable>) -> Option<Seq<char>> {
    if current is Some && lists_table(tables, current->0@) {
        Some(current->0@)
    } else if tables.len() > 0 {
        Some(tables[0].name@)
    } else {
        None
    }
}

/// Chooses the table to show after the table list changed.
pub fn select_table(current: &Option<String>, tables: &Vec<DatabaseTable>) -> (r: Option<String>)
    ensures
        r is Some <==> next_selection(*current, tables@) is Some,
        r is Some ==> r->0@ == next_selection(*current, tables@)->0,
{
    if let Some(c) = current {
        let mut i: usize = 0;
        while i < tables.len()
            invariant
                i <= tables.len(),
                *current == Some(*c),
                forall|k: int| 0 <= k < i ==> #[trigger] tables@[k].name@ != c@,
            decreases tables.len() - i,
        {
            if tables[i].name == *c {
                assert(tables@[i as int].name@ == c@);
                assert(lists_table(tables@, c@));
                return Some(c.clone());
            }
            i = i + 1;
        }
    }
    if tables.len() > 0 {
        Some(tables[0].name.clone())
    } else {
        None
    }
}

/// Browses one table page by page.
pub struct DatabaseTableBrowser {
    pub table: String,
    pub pagination: TablePaginationData,
    /// The rows of the current page, once loaded.
    pub load_state: ResourceCell<ActiveTableData>,
}

impl DatabaseTableBrowser {
    pub open spec fn wf(&self) -> bool {
        &&& self.pagination.wf()
        &&& self.load_state@.wf()
    }

    /// A browser on the first page of `table`, nothing loaded yet.
    pub fn new(table: String) -> (r: DatabaseTableBrowser)
        ensures
            r.wf(),
            r.table == table,
            r.pagination.page == 0,
            r.pagination.count is None,
            r.load_state@.state is Idle,
            r.load_state@.next_id == 0,
    {
        DatabaseTableBrowser {
            table,
            pagination: TablePaginationData::new(),
            load_state: AsyncResource::new(),
        }
    }

    /// Starts loading the current page. With no database open the count is
    /// forgotten and nothing loads; otherwise the page's statements come
    /// back with the started load, whose outcome goes to `page_loaded`.
    /// `None` also where the page's offset does not fit in an `i64`.
    pub fn load_table_page(&mut self, database_open: bool) -> (r: Option<(LoadStart, TablePageRequest)>)
        requires
            old(self).wf(),
            old(self).load_state@.next_id < u64::MAX,
        ensures
            final(self).wf(),
            final(self).table == old(self).table,
            final(self).pagination.page == old(self).pagination.page,
            final(self).pagination.page_size == old(self).pagination.page_size,
            !database_open ==> r is None && final(self).pagination.count is None
                && final(self).load_state@.state is Idle,
            database_open && old(self).pagination.page * old(self).pagination.page_size <= i64::MAX
                ==> r is Some && final(self).pagination == old(self).pagination
                && final(self).load_state@ == old(self).load_state@.started() && ({
                let (start, req) = r->0;
                &&& start.handle == final(self).load_state@.in_flight()->0
                &&& req.limit == old(self).pagination.page_size
                &&& req.offset == old(self).pagination.page * old(self).pagination.page_size
                &&& req.rows_statement@ == crate::paging::rows_statement_text(old(self).table@)
                &&& req.count_statement@ == crate::paging::count_statement_text(old(self).table@)
            }),
            r is None && database_open ==> final(self).pagination == old(self).pagination
                && final(self).load_state@ == old(self).load_state@,
    {
        if !database_open {
            self.pagination.set_count(None);
            AsyncResource::set_idle(&mut self.load_state);
            return None;
        }
        let limit = self.pagination.page_size;
        let offset = match self.pagination.offset() {
            Some(o) => o,
            None => {
                return None;
            },
        };
        let query = DatabaseTableQuery { table: self.table.clone() };
        let req = page_request(&query, limit, offset);
        let start = AsyncResource::load(&mut self.load_state);
        Some((start, req))
    }

    /// Applies the outcome of the page load `handle`: on success the rows
    /// and the count are kept; a superseded load changes nothing.
    pub fn page_loaded(&mut self, handle: LoadHandle, outcome: Result<ActiveTableData, String>) -> (applied: bool)
        requires
            old(self).wf(),
            outcome is Ok ==> outcome->Ok_0.count >= 0,
        ensures
            final(self).wf(),
            final(self).table == old(self).table,
            final(self).load_state@ == old(self).load_state@.finished(handle, outcome),
            applied == (old(self).load_state@.state == AsyncResource::<ActiveTableData>::Loading(handle)),
            applied && outcome is Ok ==> final(self).pagination.count == Some(outcome->Ok_0.count),
            !(applied && outcome is Ok) ==> final(self).pagination == old(self).pagination,
            final(self).pagination.page == old(self).pagination.page,
    {
        let count = match &outcome {
            Ok(data) => Some(data.count),
            Err(_) => None,
        };
        let applied = AsyncResource::finish_load(&mut self.load_state, handle, outcome);
        if applied && count.is_some() {
            self.pagination.set_count(count);
        }
        applied
    }

    /// Goes to the page a pager shows as `shown` (one-based) and reloads
    /// where the page changed.
    pub fn select_page(&mut self, shown: i64, database_open: bool) -> (r: Option<(LoadStart, TablePageRequest)>)
        requires
            old(self).wf(),
            old(self).load_state@.next_id < u64::MAX,
            shown >= 0,
        ensures
            final(self).wf(),
            final(self).pagination.page == if shown > 0 { shown - 1 } else { 0 },
            final(self).table == old(self).table,
            final(self).pagination.page_size == old(self).pagination.page_size,
            final(self).pagination.page == old(self).pagination.page ==> r is None
                && final(self).load_state@ == old(self).load_state@
                && final(self).pagination == old(self).pagination,
            final(self).pagination.page != old(self).pagination.page && !database_open ==> r is None
                && final(self).pagination.count is None && final(self).load_state@.state is Idle,
            final(self).pagination.page != old(self).pagination.page && database_open
                && final(self).pagination.page * final(self).pagination.page_size <= i64::MAX ==> r is Some
                && final(self).pagination.count == old(self).pagination.count
                && final(self).load_state@ == old(self).load_state@.started() && ({
                let (start, req) = r->0;
                &&& start.handle == final(self).load_state@.in_flight()->0
                &&& req.limit == final(self).pagination.page_size
                &&& req.offset == final(self).pagination.page * final(self).pagination.page_size
                &&& req.rows_statement@ == crate::paging::rows_statement_text(old(self).table@)
                &&& req.count_statement@ == crate::paging::count_statement_text(old(self).table@)
            }),
    {
        if self.pagination.select_page(shown) {
            self.load_table_page(database_open)
        } else {
            None
        }
    }
}

/// Rows shown for the selected table when it is first opened.
pub const ACTIVE_TABLE_LIMIT: i64 = 50;

/// Starts loading the first rows of the selected table. With no database
/// open, or no table selected, the data is reset instead and nothing loads.
pub fn query_table_data(
    active: &mut ResourceCell<ActiveTableData>,
    database_open: bool,
    selected: &Option<String>,
) -> (r: Option<(LoadStart, TablePageRequest)>)
    requires
        old(active)@.wf(),
        old(active)@.next_id < u64::MAX,
    ensures
        final(active)@.wf(),
        !(database_open && selected is Some) ==> r is None && final(active)@ == old(
            active,
        )@.moved_to(AsyncResource::Idle),
        database_open && selected is Some ==> r is Some && final(active)@ == old(active)@.started()
            && ({
            let (start, req) = r->0;
            &&& start.handle == final(active)@.in_flight()->0
            &&& req.limit == ACTIVE_TABLE_LIMIT
            &&& req.offset == 0
            &&& req.rows_statement@ == crate::paging::rows_statement_text(selected->0@)
            &&& req.count_statement@ == crate::paging::count_statement_text(selected->0@)
        }),
{
    if !database_open {
        AsyncResource::set_idle(active);
        return None;
    }
    match selected {
        None => {
            AsyncResource::set_idle(active);
            None
        },
        Some(table) => {
            let query = DatabaseTableQuery { table: table.clone() };
            let req = page_request(&query, ACTIVE_TABLE_LIMIT, 0);
            let start = AsyncResource::load(active);
            Some((start, req))
        },
    }
}

} // verus!
