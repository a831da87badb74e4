use vstd::prelude::*;
use vstd::string::StrSliceExecFns;

use crate::catalog::has_prefix;
use crate::model::DatabaseError;

verus! {

broadcast use vstd::seq_lib::group_seq_properties;

/// The kinds of backend a database handle can be.
#[derive(Debug, Clone)]
pub enum BackendKind {
    /// The single-file engine.
    Sqlite,
    /// Any other backend, by name.
    Other(String),
}

/// Whether `keyword` is offered for the typed `trigger`: it extends the
/// trigger and is not already typed out in full.
pub open spec fn completes(keyword: Seq<char>, trigger: Seq<char>) -> bool {
    &&& trigger.len() > 0
    &&& trigger.len() <= keyword.len()
    &&& keyword.subrange(0, trigger.len() as int) == trigger
    &&& keyword != trigger
}

/// The keywords offered for `trigger`, in list order.
pub open spec fn offered(keywords: Seq<&str>, trigger: Seq<char>) -> Seq<Seq<char>> {
    keywords.map_values(|k: &str| k@).filter(|k: Seq<char>| completes(k, trigger))
}

/// One offered keyword.
#[derive(Debug, Clone)]
pub struct KeywordCompletion {
    pub label: String,
    /// `SQLite keyword: ` then the keyword.
    pub detail: String,
    /// `0` then the keyword, so keywords sort before other items.
    pub sort_text: String,
}

impl KeywordCompletion {
    pub open spec fn wf(&self) -> bool {
        &&& self.detail@ == "SQLite keyword: "@ + self.label@
        &&& self.sort_text@ == "0"@ + self.label@
    }
}

/// Whether the trigger offers the keyword.
pub fn keyword_completes(keyword: &str, trigger: &str) -> (r: bool)
    ensures
        r == completes(keyword@, trigger@),
{
    let lt = trigger.unicode_len();
    let lk = keyword.unicode_len();
    if lt == 0 {
        return false;
    }
    if !has_prefix(keyword, trigger) {
        return false;
    }
    if lt == lk {
        assert(keyword@ =~= keyword@.subrange(0, lt as int));
        return false;
    }
    true
}

/// The completions of `trigger` among `keywords`: every keyword that
/// extends it, in list order.
pub fn keyword_completions(keywords: &Vec<&str>, trigger: &str) -> (r: Vec<KeywordCompletion>)
    ensures
        r@.map_values(|c: KeywordCompletion| c.label@) == offered(keywords@, trigger@),
        forall|i: int| 0 <= i < r.len() ==> (#[trigger] r@[i]).wf(),
{
    let mut r: Vec<KeywordCompletion> = Vec::new();
    let mut i: usize = 0;
    while i < keywords.len()
        invariant
            i <= keywords.len(),
            r@.map_values(|c: KeywordCompletion| c.label@) == offered(
                keywords@.subrange(0, i as int),
                trigger@,
            ),
            forall|j: int| 0 <= j < r.len() ==> (#[trigger] r@[j]).wf(),
        decreases keywords.len() - i,
    {
        let k = keywords[i];
        let ghost prefix = keywords@.subrange(0, i as int);
        let ghost f = |x: &str| x@;
        let ghost p = |x: Seq<char>| completes(x, trigger@);
        assert(keywords@.subrange(0, i as int + 1).map_values(f) =~= prefix.map_values(f).push(k@));
        proof {
            prefix.map_values(f).lemma_filter_push(k@, p);
        }
        if keyword_completes(k, trigger) {
            let label = String::from_str(k);
            let mut detail = String::from_str("SQLite keyword: ");
            detail.append(k);
            let mut sort_text = String::from_str("0");
            sort_text.append(k);
            let c = KeywordCompletion { label, detail, sort_text };
            let ghost before = r@;
            r.push(c);
            assert(r@.map_values(|c: KeywordCompletion| c.label@) =~= before.map_values(
                |c: KeywordCompletion| c.label@,
            ).push(k@));
        } else {
            assert(r@.map_values(|c: KeywordCompletion| c.label@) =~= offered(
                keywords@.subrange(0, i as int + 1),
                trigger@,
            ));
        }
        i = i + 1;
    }
    assert(keywords@.subrange(0, keywords.len() as int) =~= keywords@);
    r
}

/// The keywords of the engine's SQL dialect, in alphabetical order.
pub open spec fn sql_keyword_list() -> Seq<Seq<char>> {
    seq![
        "ABORT"@, "ACTION"@, "ADD"@, "AFTER"@, "ALL"@, "ALTER"@, "ALWAYS"@, "ANALYZE"@, "AND"@,
        "AS"@, "ASC"@, "ATTACH"@, "AUTOINCREMENT"@, "BEFORE"@, "BEGIN"@, "BETWEEN"@, "BY"@,
        "CASCADE"@, "CASE"@, "CAST"@, "CHECK"@, "COLLATE"@, "COLUMN"@, "COMMIT"@, "CONFLICT"@,
        "CONSTRAINT"@, "CREATE"@, "CROSS"@, "CURRENT"@, "CURRENT_DATE"@, "CURRENT_TIME"@,
        "CURRENT_TIMESTAMP"@, "DATABASE"@, "DEFAULT"@, "DEFERRABLE"@, "DEFERRED"@, "DELETE"@,
        "DESC"@, "DETACH"@, "DISTINCT"@, "DO"@, "DROP"@, "EACH"@, "ELSE"@, "END"@, "ESCAPE"@,
        "EXCEPT"@, "EXCLUDE"@, "EXCLUSIVE"@, "EXISTS"@, "EXPLAIN"@, "FAIL"@, "FILTER"@, "FIRST"@,
        "FOLLOWING"@, "FOR"@, "FOREIGN"@, "FROM"@, "FULL"@, "GENERATED"@, "GLOB"@, "GROUP"@,
        "GROUPS"@, "HAVING"@, "IF"@, "IGNORE"@, "IMMEDIATE"@, "IN"@, "INDEX"@, "INDEXED"@,
        "INITIALLY"@, "INNER"@, "INSERT"@, "INSTEAD"@, "INTERSECT"@, "INTO"@, "IS"@, "ISNULL"@,
        "JOIN"@, "KEY"@, "LAST"@, "LEFT"@, "LIKE"@, "LIMIT"@, "MATCH"@, "MATERIALIZED"@, "NATURAL"@,
        "NO"@, "NOT"@, "NOTHING"@, "NOTNULL"@, "NULL"@, "NULLS"@, "OF"@, "OFFSET"@, "ON"@, "OR"@,
        "ORDER"@, "OTHERS"@, "OUTER"@, "OVER"@, "PARTITION"@, "PLAN"@, "PRAGMA"@, "PRECEDING"@,
        "PRIMARY"@, "QUERY"@, "RAISE"@, "RANGE"@, "RECURSIVE"@, "REFERENCES"@, "REGEXP"@,
        "REINDEX"@, "RELEASE"@, "RENAME"@, "REPLACE"@, "RESTRICT"@, "RETURNING"@, "RIGHT"@,
        "ROLLBACK"@, "ROW"@, "ROWS"@, "SAVEPOINT"@, "SELECT"@, "SET"@, "TABLE"@, "TEMP"@,
        "TEMPORARY"@, "THEN"@, "TIES"@, "TO"@, "TRANSACTION"@, "TRIGGER"@, "UNBOUNDED"@, "UNION"@,
        "UNIQUE"@, "UPDATE"@, "USING"@, "VACUUM"@, "VALUES"@, "VIEW"@, "VIRTUAL"@, "WHEN"@,
        "WHERE"@, "WINDOW"@, "WITH"@, "WITHOUT"@
    ]
}

/// The keywords of the engine's SQL dialect.
pub fn sql_keywords() -> (r: Vec<&'static str>)
    ensures
        r@.map_values(|k: &str| k@) == sql_keyword_list(),
{
    let r = vec![
        "ABORT", "ACTION", "ADD", "AFTER", "ALL", "ALTER", "ALWAYS", "ANALYZE", "AND", "AS",
        "ASC", "ATTACH", "AUTOINCREMENT", "BEFORE", "BEGIN", "BETWEEN", "BY", "CASCADE", "CASE",
        "CAST", "CHECK", "COLLATE", "COLUMN", "COMMIT", "CONFLICT", "CONSTRAINT", "CREATE",
        "CROSS", "CURRENT", "CURRENT_DATE", "CURRENT_TIME", "CURRENT_TIMESTAMP", "DATABASE",
        "DEFAULT", "DEFERRABLE", "DEFERRED", "DELETE", "DESC", "DETACH", "DISTINCT", "DO", "DROP",
        "EACH", "ELSE", "END", "ESCAPE", "EXCEPT", "EXCLUDE", "EXCLUSIVE", "EXISTS", "EXPLAIN",
        "FAIL", "FILTER", "FIRST", "FOLLOWING", "FOR", "FOREIGN", "FROM", "FULL", "GENERATED",
        "GLOB", "GROUP", "GROUPS", "HAVING", "IF", "IGNORE", "IMMEDIATE", "IN", "INDEX",
        "INDEXED", "INITIALLY", "INNER", "INSERT", "INSTEAD", "INTERSECT", "INTO", "IS", "ISNULL",
        "JOIN", "KEY", "LAST", "LEFT", "LIKE", "LIMIT", "MATCH", "MATERIALIZED", "NATURAL", "NO",
        "NOT", "NOTHING", "NOTNULL", "NULL", "NULLS", "OF", "OFFSET", "ON", "OR", "ORDER",
        "OTHERS", "OUTER", "OVER", "PARTITION", "PLAN", "PRAGMA", "PRECEDING", "PRIMARY", "QUERY",
        "RAISE", "RANGE", "RECURSIVE", "REFERENCES", "REGEXP", "REINDEX", "RELEASE", "RENAME",
        "REPLACE", "RESTRICT", "RETURNING", "RIGHT", "ROLLBACK", "ROW", "ROWS", "SAVEPOINT",
        "SELECT", "SET", "TABLE", "TEMP", "TEMPORARY", "THEN", "TIES", "TO", "TRANSACTION",
        "TRIGGER", "UNBOUNDED", "UNION", "UNIQUE", "UPDATE", "USING", "VACUUM", "VALUES", "VIEW",
        "VIRTUAL", "WHEN", "WHERE", "WINDOW", "WITH", "WITHOUT",
    ];
    assert(r@.map_values(|k: &str| k@) =~= sql_keyword_list());
    r
}

/// SQL completion for the single-file engine.
#[derive(Debug, Clone)]
pub struct SqliteLsp {
    pub keywords: Vec<&'static str>,
}

impl SqliteLsp {
    pub fn new() -> (r: SqliteLsp)
        ensures
            r.keywords@.map_values(|k: &str| k@) == sql_keyword_list(),
    {
        SqliteLsp { keywords: sql_keywords() }
    }

    /// The keywords offered for the typed trigger; none for an empty one.
    pub fn completions(&self, trigger: &str) -> (r: Vec<KeywordCompletion>)
        ensures
            r@.map_values(|c: KeywordCompletion| c.label@) == offered(self.keywords@, trigger@),
            forall|i: int| 0 <= i < r.len() ==> (#[trigger] r@[i]).wf() && completes(
                r@[i].label@,
                trigger@,
            ),
            trigger@.len() == 0 ==> r.len() == 0,
    {
        let r = keyword_completions(&self.keywords, trigger);
        proof {
            let labels = r@.map_values(|c: KeywordCompletion| c.label@);
            let p = |k: Seq<char>| completes(k, trigger@);
            assert forall|i: int| 0 <= i < r.len() implies completes(
                #[trigger] r@[i].label@,
                trigger@,
            ) by {
                assert(labels[i] == r@[i].label@);
                self.keywords@.map_values(|k: &str| k@).lemma_filter_pred(p, i);
            }
            if r.len() > 0 {
                assert(completes(r@[0].label@, trigger@));
            }
        }
        r
    }

    /// Every edit may offer completions.
    pub fn is_completion_trigger(&self) -> (r: bool)
        ensures
            r,
    {
        true
    }
}

/// Completion for a database, by the kind of its backend:
/// `UnsupportedBackend` for any kind other than the single-file engine.
pub fn create_sql_lsp(backend: &BackendKind) -> (r: Result<SqliteLsp, DatabaseError>)
    ensures
        r is Ok <==> backend is Sqlite,
        r is Ok ==> r->Ok_0.keywords@.map_values(|k: &str| k@) == sql_keyword_list(),
        backend is Other ==> r == Err::<SqliteLsp, DatabaseError>(
            DatabaseError::UnsupportedBackend(backend->Other_0),
        ),
{
    match backend {
        BackendKind::Sqlite => Ok(SqliteLsp::new()),
        BackendKind::Other(name) => Err(DatabaseError::UnsupportedBackend(name.clone())),
    }
}

} // verus!
