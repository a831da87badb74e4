use vstd::prelude::*;
use vstd::string::StrSliceExecFns;

use crate::model::DatabaseTable;

verus! {

broadcast use vstd::seq_lib::group_seq_properties;

/// One row of the engine's schema catalog: the kind of object, its name and
/// the statement that created it.
#[derive(Debug, Clone)]
pub struct CatalogEntry {
    pub kind: String,
    pub name: String,
    pub sql: String,
}

/// The statement that lists the schema catalog, one `CatalogEntry` per row.
pub fn catalog_statement() -> (r: &'static str)
    ensures
        r@ == "SELECT \"type\", \"name\", coalesce(\"sql\", '') FROM sqlite_master"@,
{
    "SELECT \"type\", \"name\", coalesce(\"sql\", '') FROM sqlite_master"
}

impl View for DatabaseTable {
    type V = (Seq<char>, Seq<char>);

    open spec fn view(&self) -> (Seq<char>, Seq<char>) {
        (self.name@, self.sql@)
    }
}

/// A catalog entry as values: its kind, name and creating statement.
pub type EntryView = (Seq<char>, Seq<char>, Seq<char>);

impl View for CatalogEntry {
    type V = EntryView;

    open spec fn view(&self) -> EntryView {
        (self.kind@, self.name@, self.sql@)
    }
}

/// Names the engine reserves for its own tables.
pub open spec fn is_internal_name(name: Seq<char>) -> bool {
    name.len() >= 7 && name.subrange(0, 7) == "sqlite_"@
}

/// A catalog entry that describes a table a user created.
pub open spec fn is_user_table(e: EntryView) -> bool {
    e.0 == "table"@ && !is_internal_name(e.1)
}

/// The table an entry describes.
pub open spec fn entry_table(e: EntryView) -> (Seq<char>, Seq<char>) {
    (e.1, e.2)
}

/// Lexicographic order on names, character by character by code point.
pub open spec fn name_le(a: Seq<char>, b: Seq<char>) -> bool
    decreases a.len(),
{
    if a.len() == 0 {
        true
    } else if b.len() == 0 {
        false
    } else if a[0] as u32 != b[0] as u32 {
        (a[0] as u32) < (b[0] as u32)
    } else {
        name_le(a.drop_first(), b.drop_first())
    }
}

/// Tables in ascending order of name.
pub open spec fn sorted_by_name(s: Seq<DatabaseTable>) -> bool {
    forall|i: int, j: int| 0 <= i < j < s.len() ==> name_le(#[trigger] s[i].name@, #[trigger] s[j].name@)
}

/// The user tables among catalog entries, as tables.
pub open spec fn user_table_views(entries: Seq<EntryView>) -> Seq<(Seq<char>, Seq<char>)> {
    entries.filter(|e: EntryView| is_user_table(e)).map_values(|e: EntryView| entry_table(e))
}

pub proof fn lemma_name_le_total(a: Seq<char>, b: Seq<char>)
    ensures
        name_le(a, b) || name_le(b, a),
    decreases a.len(),
{
    if a.len() > 0 && b.len() > 0 && a[0] as u32 == b[0] as u32 {
        lemma_name_le_total(a.drop_first(), b.drop_first());
    }
}

pub proof fn lemma_name_le_transitive(a: Seq<char>, b: Seq<char>, c: Seq<char>)
    requires
        name_le(a, b),
        name_le(b, c),
    ensures
        name_le(a, c),
    decreases a.len(),
{
    if a.len() > 0 && b.len() > 0 && c.len() > 0 && a[0] as u32 == b[0] as u32 && b[0] as u32 == c[0] as u32 {
        lemma_name_le_transitive(a.drop_first(), b.drop_first(), c.drop_first());
    }
}

/// Whether `a` comes no later than `b` in name order.
pub fn names_in_order(a: &String, b: &String) -> (r: bool)
    ensures
        r == name_le(a@, b@),
{
    let sa = a.as_str();
    let sb = b.as_str();
    let la = sa.unicode_len();
    let lb = sb.unicode_len();
    let mut i: usize = 0;
    while i < la && i < lb
        invariant
            la == a@.len(),
            lb == b@.len(),
            sa@ == a@,
            sb@ == b@,
            i <= la,
            i <= lb,
            name_le(a@, b@) == name_le(a@.skip(i as int), b@.skip(i as int)),
        decreases la - i,
    {
        let ca = sa.get_char(i);
        let cb = sb.get_char(i);
        assert(a@.skip(i as int)[0] == ca);
        assert(b@.skip(i as int)[0] == cb);
        if ca as u32 != cb as u32 {
            return (ca as u32) < (cb as u32);
        }
        assert(a@.skip(i as int).drop_first() =~= a@.skip(i as int + 1));
        assert(b@.skip(i as int).drop_first() =~= b@.skip(i as int + 1));
        i = i + 1;
    }
    i == la
}

/// Whether `s` begins with `p`.
pub fn has_prefix(s: &str, p: &str) -> (r: bool)
    ensures
        r == (p@.len() <= s@.len() && s@.subrange(0, p@.len() as int) == p@),
{
    let ls = s.unicode_len();
    let lp = p.unicode_len();
    if lp > ls {
        return false;
    }
    let mut i: usize = 0;
    while i < lp
        invariant
            lp <= ls,
            ls == s@.len(),
            lp == p@.len(),
            i <= lp,
            s@.subrange(0, i as int) == p@.subrange(0, i as int),
        decreases lp - i,
    {
        if s.get_char(i) != p.get_char(i) {
            assert(s@.subrange(0, lp as int)[i as int] != p@[i as int]);
            return false;
        }
        assert(s@.subrange(0, i as int + 1) =~= s@.subrange(0, i as int).push(s@[i as int]));
        assert(p@.subrange(0, i as int + 1) =~= p@.subrange(0, i as int).push(p@[i as int]));
        i = i + 1;
    }
    assert(p@.subrange(0, lp as int) =~= p@);
    true
}

/// Whether the name is reserved for the engine's own tables.
pub fn is_internal_table_name(name: &String) -> (r: bool)
    ensures
        r == is_internal_name(name@),
{
    let prefix = "sqlite_";
    proof {
        reveal_strlit("sqlite_");
    }
    has_prefix(name.as_str(), prefix)
}

/// The user tables of a schema catalog: entries of kind `table` whose name
/// is not reserved by the engine, in ascending order of name (entries with
/// equal names keep their catalog order).
pub fn user_tables(entries: &Vec<CatalogEntry>) -> (r: Vec<DatabaseTable>)
    ensures
        sorted_by_name(r@),
        r@.map_values(|t: DatabaseTable| t@).to_multiset() == user_table_views(
            entries@.map_values(|e: CatalogEntry| e@),
        ).to_multiset(),
{
    let table_kind = String::from_str("table");
    let mut r: Vec<DatabaseTable> = Vec::new();
    let mut i: usize = 0;
    while i < entries.len()
        invariant
            i <= entries.len(),
            table_kind@ == "table"@,
            sorted_by_name(r@),
            r@.map_values(|t: DatabaseTable| t@).to_multiset() == user_table_views(
                entries@.subrange(0, i as int).map_values(|e: CatalogEntry| e@),
            ).to_multiset(),
        decreases entries.len() - i,
    {
        let e = &entries[i];
        let ghost prefix = entries@.subrange(0, i as int).map_values(|x: CatalogEntry| x@);
        assert(entries@.subrange(0, i as int + 1).map_values(|x: CatalogEntry| x@) =~= prefix.push(
            e@,
        ));
        proof {
            prefix.lemma_filter_push(e@, |x: EntryView| is_user_table(x));
        }
        if e.kind == table_kind && !is_internal_table_name(&e.name) {
            let t = DatabaseTable { name: e.name.clone(), sql: e.sql.clone() };
            let mut p: usize = 0;
            while p < r.len() && names_in_order(&r[p].name, &t.name)
                invariant
                    p <= r.len(),
                    forall|k: int| 0 <= k < p ==> name_le(#[trigger] r@[k].name@, t.name@),
                decreases r.len() - p,
            {
                p = p + 1;
            }
            let ghost old_r = r@;
            proof {
                if p < old_r.len() {
                    lemma_name_le_total(old_r[p as int].name@, t.name@);
                    assert forall|k: int| p <= k < old_r.len() implies name_le(
                        t.name@,
                        #[trigger] old_r[k].name@,
                    ) by {
                        if k > p {
                            lemma_name_le_transitive(
                                t.name@,
                                old_r[p as int].name@,
                                old_r[k].name@,
                            );
                        }
                    }
                }
            }
            r.insert(p, t);
            proof {
                assert forall|a: int, b: int| 0 <= a < b < r@.len() implies name_le(
                    #[trigger] r@[a].name@,
                    #[trigger] r@[b].name@,
                ) by {
                    if a < p && b == p {
                    } else if a < p && b > p {
                        assert(r@[a] == old_r[a]);
                        assert(r@[b] == old_r[b - 1]);
                        lemma_name_le_total(old_r[a].name@, t.name@);
                    } else if a == p {
                        assert(r@[b] == old_r[b - 1]);
                    } else if b < p {
                    } else {
                        assert(r@[a] == old_r[a - 1]);
                        assert(r@[b] == old_r[b - 1]);
                    }
                }
                let f = |x: DatabaseTable| x@;
                assert(r@.map_values(f) =~= old_r.map_values(f).insert(p as int, t@));
                vstd::seq_lib::to_multiset_insert(old_r.map_values(f), p as int, t@);
                let g = |x: EntryView| is_user_table(x);
                let h = |x: EntryView| entry_table(x);
                assert(prefix.push(e@).filter(g).map_values(h) =~= prefix.filter(g).map_values(
                    h,
                ).push(entry_table(e@)));
                vstd::seq_lib::to_multiset_build(prefix.filter(g).map_values(h), entry_table(e@));
            }
        }
        i = i + 1;
    }
    assert(entries@.subrange(0, entries.len() as int) =~= entries@);
    r
}

/// A table listing with the contract of `user_tables` lists only user
/// tables of the catalog: each is a `table` entry of the catalog, and none
/// has a name the engine reserves.
pub proof fn lemma_listed_tables_are_user_tables(
    entries: Seq<EntryView>,
    r: Seq<DatabaseTable>,
    i: int,
)
    requires
        r.map_values(|t: DatabaseTable| t@).to_multiset() == user_table_views(entries).to_multiset(),
        0 <= i < r.len(),
    ensures
        !is_internal_name(r[i].name@),
        exists|e: EntryView| entries.contains(e) && is_user_table(e) && entry_table(e) == r[i]@,
{
    let f = |t: DatabaseTable| t@;
    let p = |e: EntryView| is_user_table(e);
    let h = |e: EntryView| entry_table(e);
    let views = r.map_values(f);
    assert(views[i] == r[i]@);
    assert(views.contains(r[i]@));
    vstd::seq_lib::to_multiset_contains(views, r[i]@);
    let listed = user_table_views(entries);
    vstd::seq_lib::to_multiset_contains(listed, r[i]@);
    assert(listed.contains(r[i]@));
    let j = choose|j: int| 0 <= j < listed.len() && listed[j] == r[i]@;
    let filtered = entries.filter(p);
    assert(listed == filtered.map_values(h));
    entries.lemma_filter_pred(p, j);
    let e = filtered[j];
    assert(filtered.contains(e));
    entries.lemma_filter_contains_rev(p, e);
    assert(entries.contains(e) && is_user_table(e) && entry_table(e) == r[i]@);
}

} // verus!
