use vstd::prelude::*;

use crate::model::DatabaseRow;
use crate::resource::{AsyncResource, LoadHandle, LoadStart, ResourceCell};

verus! {

/// The text sqlformat makes of a query, with no bound parameters and its
/// default options.
pub uninterp spec fn formatted_sql(query: Seq<char>) -> Seq<char>;

/// Relies on `sqlformat::format`, which lays a query out on lines and
/// indents it; its result depends on the query text alone.
#[verifier::external_body]
fn format_sql(query: &str) -> (r: String)
    ensures
        r@ == formatted_sql(query@),
{
    sqlformat::format(query, &sqlformat::QueryParams::None, &sqlformat::FormatOptions::default())
}

/// Runs free-form queries against the current database.
pub struct DatabaseSqlExecutor {
    /// The query being edited.
    pub query: String,
    /// Rows of the last query run.
    pub results: ResourceCell<Vec<DatabaseRow>>,
}

impl DatabaseSqlExecutor {
    pub open spec fn wf(&self) -> bool {
        self.results@.wf()
    }

    /// An executor with an empty query and no results.
    pub fn new() -> (r: DatabaseSqlExecutor)
        ensures
            r.wf(),
            r.query@.len() == 0,
            r.results@.state is Idle,
    {
        DatabaseSqlExecutor { query: String::new(), results: AsyncResource::new() }
    }

    /// Lays the query out with sqlformat.
    pub fn format_query(&mut self)
        requires
            old(self).wf(),
        ensures
            final(self).wf(),
            final(self).query@ == formatted_sql(old(self).query@),
            final(self).results@ == old(self).results@,
    {
        self.query = format_sql(self.query.as_str());
    }

    /// Starts running the query. With no database open nothing happens;
    /// otherwise the started load comes back with the text to run, whose
    /// outcome goes to `query_finished`.
    pub fn perform_query(&mut self, database_open: bool) -> (r: Option<(LoadStart, String)>)
        requires
            old(self).wf(),
            old(self).results@.next_id < u64::MAX,
        ensures
            final(self).wf(),
            final(self).query == old(self).query,
            !database_open ==> r is None && final(self).results@ == old(self).results@,
            database_open ==> r is Some && final(self).results@ == old(self).results@.started() && ({
                let (start, text) = r->0;
                start.handle == final(self).results@.in_flight()->0 && text == old(self).query
            }),
    {
        if !database_open {
            return None;
        }
        let start = AsyncResource::load(&mut self.results);
        Some((start, self.query.clone()))
    }

    /// Applies the outcome of the query run `handle`: its rows, or the
    /// engine's message; a superseded run changes nothing.
    pub fn query_finished(&mut self, handle: LoadHandle, outcome: Result<Vec<DatabaseRow>, String>) -> (applied: bool)
        requires
            old(self).wf(),
        ensures
            final(self).wf(),
            final(self).query == old(self).query,
            final(self).results@ == old(self).results@.finished(handle, outcome),
            applied == (old(self).results@.state == AsyncResource::<Vec<DatabaseRow>>::Loading(handle)),
    {
        AsyncResource::finish_load(&mut self.results, handle, outcome)
    }

    /// Results belong to the database they came from: a change of database
    /// resets them.
    pub fn database_changed(&mut self) -> (cancelled: Option<LoadHandle>)
        requires
            old(self).wf(),
        ensures
            final(self).wf(),
            final(self).query == old(self).query,
            final(self).results@ == old(self).results@.moved_to(AsyncResource::Idle),
            cancelled == old(self).results@.in_flight(),
    {
        AsyncResource::set_idle(&mut self.results)
    }
}

} // verus!
