use vstd::prelude::*;

verus! {

/// Naming details of an open database.
#[derive(Debug, Clone)]
pub struct DatabaseName {
    /// Short human label (the file name).
    pub primary: String,
    /// Full connection descriptor.
    pub secondary: String,
}

/// One user-visible table of a database.
#[derive(Debug, Clone)]
pub struct DatabaseTable {
    /// Name of the table.
    pub name: String,
    /// Statement that created the table.
    pub sql: String,
}

/// One decoded cell of a result row.
#[derive(Debug, Clone)]
pub struct DatabaseColumn {
    pub name: String,
    pub value: String,
}

/// One result row, its columns in result order.
#[derive(Debug, Clone)]
pub struct DatabaseRow {
    pub value: Vec<DatabaseColumn>,
}

/// The target table of a paginated scan or a count.
#[derive(Debug, Clone)]
pub struct DatabaseTableQuery {
    pub table: String,
}

/// Failures of the database layer.
#[derive(Debug, Clone)]
pub enum DatabaseError {
    /// The file to open does not exist.
    InvalidPath(String),
    /// The connection could not be established or kept.
    ConnectionError(String),
    /// The engine refused the query; its own diagnostic.
    QueryError(String),
    /// The engine answered with something that cannot be read.
    BackendError(String),
    /// The named table does not exist.
    NotFound(String),
    /// The backend has no such capability.
    UnsupportedBackend(String),
}

impl DatabaseError {
    /// The message carried by the error.
    pub fn message(&self) -> (r: &String)
        ensures
            r@ == self.message_view(),
    {
        match self {
            DatabaseError::InvalidPath(m) => m,
            DatabaseError::ConnectionError(m) => m,
            DatabaseError::QueryError(m) => m,
            DatabaseError::NotFound(m) => m,
            DatabaseError::BackendError(m) => m,
            DatabaseError::UnsupportedBackend(m) => m,
        }
    }

    pub open spec fn message_view(&self) -> Seq<char> {
        match self {
            DatabaseError::InvalidPath(m) => m@,
            DatabaseError::ConnectionError(m) => m@,
            DatabaseError::QueryError(m) => m@,
            DatabaseError::NotFound(m) => m@,
            DatabaseError::BackendError(m) => m@,
            DatabaseError::UnsupportedBackend(m) => m@,
        }
    }
}

/// The text of every cell of a row, in column order.
pub open spec fn row_texts(row: DatabaseRow) -> Seq<Seq<char>> {
    row.value@.map_values(|c: DatabaseColumn| c.value@)
}

/// The column names of a result: those of its first row, none for an empty
/// result.
pub open spec fn result_columns(rows: Seq<DatabaseRow>) -> Seq<Seq<char>> {
    if rows.len() == 0 {
        Seq::empty()
    } else {
        rows[0].value@.map_values(|c: DatabaseColumn| c.name@)
    }
}

impl DatabaseRow {
    /// The text of every cell, in column order.
    pub fn values(&self) -> (r: Vec<String>)
        ensures
            r@.map_values(|s: String| s@) == row_texts(*self),
    {
        let mut r: Vec<String> = Vec::new();
        let mut i: usize = 0;
        while i < self.value.len()
            invariant
                i <= self.value.len(),
                r@.map_values(|s: String| s@) == self.value@.subrange(0, i as int).map_values(
                    |c: DatabaseColumn| c.value@,
                ),
            decreases self.value.len() - i,
        {
            let ghost before = r@;
            let v = self.value[i].value.clone();
            r.push(v);
            assert(r@.map_values(|s: String| s@) =~= before.map_values(|s: String| s@).push(v@));
            assert(self.value@.subrange(0, i as int + 1).map_values(|c: DatabaseColumn| c.value@)
                =~= self.value@.subrange(0, i as int).map_values(|c: DatabaseColumn| c.value@).push(
                v@,
            ));
            assert(r@.map_values(|s: String| s@) =~= self.value@.subrange(0, i as int + 1).map_values(
                |c: DatabaseColumn| c.value@,
            ));
            i = i + 1;
        }
        assert(self.value@.subrange(0, self.value.len() as int) =~= self.value@);
        r
    }
}

/// The column names of a result, taken from its first row.
pub fn compute_columns(rows: &Vec<DatabaseRow>) -> (r: Vec<String>)
    ensures
        r@.map_values(|s: String| s@) == result_columns(rows@),
{
    let mut r: Vec<String> = Vec::new();
    if rows.len() == 0 {
        assert(r@.map_values(|s: String| s@) =~= result_columns(rows@));
        return r;
    }
    let first = &rows[0];
    let mut i: usize = 0;
    while i < first.value.len()
        invariant
            rows.len() > 0,
            *first == rows@[0],
            i <= first.value.len(),
            r@.map_values(|s: String| s@) == first.value@.subrange(0, i as int).map_values(
                |c: DatabaseColumn| c.name@,
            ),
        decreases first.value.len() - i,
    {
        let ghost before = r@;
        let v = first.value[i].name.clone();
        r.push(v);
        assert(r@.map_values(|s: String| s@) =~= before.map_values(|s: String| s@).push(v@));
        assert(first.value@.subrange(0, i as int + 1).map_values(|c: DatabaseColumn| c.name@)
            =~= first.value@.subrange(0, i as int).map_values(|c: DatabaseColumn| c.name@).push(
            v@,
        ));
        assert(r@.map_values(|s: String| s@) =~= first.value@.subrange(0, i as int + 1).map_values(
            |c: DatabaseColumn| c.name@,
        ));
        i = i + 1;
    }
    assert(first.value@.subrange(0, first.value.len() as int) =~= first.value@);
    r
}

/// The message for a database path that names no existing file.
pub open spec fn invalid_path_message(path: Seq<char>) -> Seq<char> {
    "database path '"@ + path + "' is not a file"@
}

/// Opening a file never creates it: a path that does not name an existing
/// file (`is_file`) is refused with `InvalidPath`.
pub fn check_database_path(is_file: bool, path: &str) -> (r: Result<(), DatabaseError>)
    ensures
        r is Ok <==> is_file,
        r is Err ==> r->Err_0 is InvalidPath && r->Err_0.message_view() == invalid_path_message(
            path@,
        ),
{
    if is_file {
        Ok(())
    } else {
        let mut message = String::from_str("database path '");
        message.append(path);
        message.append("' is not a file");
        Err(DatabaseError::InvalidPath(message))
    }
}

impl DatabaseName {
    /// The name of a database file: its file name where the path has one,
    /// else the whole path; the descriptor is the connection's.
    pub fn for_file(file_name: Option<String>, path: String, descriptor: String) -> (r: DatabaseName)
        ensures
            file_name is Some ==> r.primary == file_name->0,
            file_name is None ==> r.primary == path,
            r.secondary == descriptor,
    {
        let primary = match file_name {
            Some(f) => f,
            None => path,
        };
        DatabaseName { primary, secondary: descriptor }
    }

    /// The name of a private in-memory database.
    pub fn memory(descriptor: String) -> (r: DatabaseName)
        ensures
            r.primary@ == "Memory"@,
            r.secondary == descriptor,
    {
        DatabaseName { primary: String::from_str("Memory"), secondary: descriptor }
    }
}

} // verus!
