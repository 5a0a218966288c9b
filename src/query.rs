//! Textual queries of the store operations, built from a table name, ids,
//! field names and caller-supplied values, which are interpolated as given.
use vstd::prelude::*;
use vstd::string::StringExecFns;

use crate::path::{decimal, decimal_string};

verus! {

/// A mapping from field names to values, as `(name, value)` entries.
pub open spec fn entries_view(entries: Seq<(String, String)>) -> Seq<(Seq<char>, Seq<char>)> {
    entries.map_values(|e: (String, String)| (e.0@, e.1@))
}

/// No two entries share a key, as in a map.
pub open spec fn keys_unique(entries: Seq<(Seq<char>, Seq<char>)>) -> bool {
    forall|i: int, j: int| 0 <= i < j < entries.len() ==> (#[trigger] entries[i]).0 != (#[trigger] entries[j]).0
}

/// The reserved filter key that holds the row limit.
pub open spec fn limit_key() -> Seq<char> {
    "limit"@
}

/// `name = value` for each entry, in order.
pub open spec fn equalities(entries: Seq<(Seq<char>, Seq<char>)>) -> Seq<Seq<char>> {
    entries.map_values(|e: (Seq<char>, Seq<char>)| e.0 + " = "@ + e.1)
}

/// The entries whose key is not the limit key, in order.
pub open spec fn conditions(entries: Seq<(Seq<char>, Seq<char>)>) -> Seq<(Seq<char>, Seq<char>)> {
    entries.filter(|e: (Seq<char>, Seq<char>)| e.0 != limit_key())
}

/// Whether some entry's key is the limit key.
pub open spec fn has_limit(entries: Seq<(Seq<char>, Seq<char>)>) -> bool {
    exists|i: int| 0 <= i < entries.len() && (#[trigger] entries[i]).0 == limit_key()
}

/// The value of the limit entry (of the last one, were there several).
pub open spec fn limit_of(entries: Seq<(Seq<char>, Seq<char>)>) -> Seq<char>
    decreases entries.len(),
{
    if entries.len() == 0 {
        Seq::empty()
    } else if entries.last().0 == limit_key() {
        entries.last().1
    } else {
        limit_of(entries.drop_last())
    }
}

/// The parts joined by `sep`.
pub open spec fn join(parts: Seq<Seq<char>>, sep: Seq<char>) -> Seq<char>
    decreases parts.len(),
{
    if parts.len() == 0 {
        Seq::empty()
    } else if parts.len() == 1 {
        parts[0]
    } else {
        join(parts.drop_last(), sep) + sep + parts.last()
    }
}

pub open spec fn select_by_id_text(table: Seq<char>, id: u32) -> Seq<char> {
    "SELECT * FROM "@ + table + " WHERE id = "@ + decimal(id as nat)
}

pub open spec fn select_all_text(table: Seq<char>) -> Seq<char> {
    "SELECT * FROM "@ + table
}

/// The search query: the `WHERE` clause is left out where the filter holds
/// no condition besides the limit.
pub open spec fn find_text(table: Seq<char>, filter: Seq<(Seq<char>, Seq<char>)>) -> Seq<char> {
    if conditions(filter).len() == 0 {
        "SELECT * FROM "@ + table + " LIMIT "@ + limit_of(filter) + ";"@
    } else {
        "SELECT * FROM "@ + table + " WHERE "@ + join(equalities(conditions(filter)), " AND "@) + " LIMIT "@
            + limit_of(filter) + ";"@
    }
}

pub open spec fn insert_text(table: Seq<char>, fields: Seq<char>, values: Seq<char>) -> Seq<char> {
    "INSERT INTO "@ + table + " ("@ + fields + ") VALUES ("@ + values + ");"@
}

pub open spec fn last_inserted_text(table: Seq<char>) -> Seq<char> {
    "SELECT * FROM "@ + table + " WHERE id = last_insert_rowid()"@
}

pub open spec fn update_text(table: Seq<char>, id: u32, fields: Seq<(Seq<char>, Seq<char>)>) -> Seq<char> {
    "UPDATE "@ + table + " SET "@ + join(equalities(fields), ","@) + " WHERE id = "@ + decimal(id as nat)
}

pub open spec fn delete_text(table: Seq<char>, id: u32) -> Seq<char> {
    "DELETE FROM "@ + table + " WHERE id = "@ + decimal(id as nat)
}

pub open spec fn exists_text(table: Seq<char>, conditions: Seq<char>) -> Seq<char> {
    "SELECT EXISTS (SELECT 1 FROM "@ + table + " WHERE "@ + conditions + ") AS result;"@
}

pub open spec fn names_text(table: Seq<char>) -> Seq<char> {
    "SELECT name FROM "@ + table + ";"@
}

pub open spec fn name_by_id_text(table: Seq<char>, id: u32) -> Seq<char> {
    "SELECT name FROM "@ + table + " WHERE id = "@ + decimal(id as nat) + ";"@
}

/// Point lookup of row `id`.
pub fn select_by_id_query(table: &str, id: u32) -> (r: String)
    ensures
        r@ == select_by_id_text(table@, id),
{
    let mut r = String::from_str("SELECT * FROM ");
    r.append(table);
    r.append(" WHERE id = ");
    let digits = decimal_string(id);
    r.append(digits.as_str());
    r
}

/// Scan of the whole table.
pub fn select_all_query(table: &str) -> (r: String)
    ensures
        r@ == select_all_text(table@),
{
    let mut r = String::from_str("SELECT * FROM ");
    r.append(table);
    r
}

/// Joins `name = value` for each entry of `entries` by `sep`, leaving out the
/// limit key where `skip_limit` holds.
fn join_equalities(entries: &Vec<(String, String)>, sep: &str, skip_limit: bool) -> (r: (String, usize))
    ensures
        skip_limit ==> r.0@ == join(equalities(conditions(entries_view(entries@))), sep@)
            && r.1 == conditions(entries_view(entries@)).len(),
        !skip_limit ==> r.0@ == join(equalities(entries_view(entries@)), sep@),
{
    let limit = String::from_str("limit");
    let mut r = String::new();
    let mut count: usize = 0;
    let mut i: usize = 0;
    let ghost kept: Seq<(Seq<char>, Seq<char>)> = Seq::empty();
    while i < entries.len()
        invariant
            i <= entries@.len(),
            limit@ == limit_key(),
            kept.len() == count,
            skip_limit ==> kept == conditions(entries_view(entries@.subrange(0, i as int))),
            !skip_limit ==> kept == entries_view(entries@.subrange(0, i as int)),
            r@ == join(equalities(kept), sep@),
        decreases entries@.len() - i,
    {
        let ghost prefix = entries_view(entries@.subrange(0, i as int));
        let ghost e = (entries@[i as int].0@, entries@[i as int].1@);
        assert(entries_view(entries@.subrange(0, i + 1)) =~= prefix.push(e));
        let is_limit = entries[i].0 == limit;
        if !(skip_limit && is_limit) {
            if count > 0 {
                r.append(sep);
            }
            r.append(entries[i].0.as_str());
            r.append(" = ");
            r.append(entries[i].1.as_str());
            proof {
                let parts = equalities(kept.push(e));
                assert(parts.drop_last() =~= equalities(kept));
                assert(parts.last() == e.0 + " = "@ + e.1);
                if count == 0 {
                    assert(equalities(kept) =~= Seq::empty());
                }
                kept = kept.push(e);
            }
            assert(count < entries@.len());
            count = count + 1;
        }
        proof {
            if skip_limit {
                reveal_with_fuel(Seq::filter, 2);
                assert(prefix.push(e).drop_last() =~= prefix);
            }
        }
        i = i + 1;
    }
    assert(entries@.subrange(0, i as int) =~= entries@);
    (r, count)
}

/// Filtered search: every entry but the limit is an equality condition, the
/// conditions are joined by `AND`, and the limit entry's value caps the rows.
pub fn find_query(table: &str, filter: &Vec<(String, String)>) -> (r: String)
    requires
        has_limit(entries_view(filter@)),
        keys_unique(entries_view(filter@)),
    ensures
        r@ == find_text(table@, entries_view(filter@)),
{
    let mut r = String::from_str("SELECT * FROM ");
    r.append(table);
    let (conds, count) = join_equalities(filter, " AND ", true);
    if count > 0 {
        r.append(" WHERE ");
        r.append(conds.as_str());
    }
    r.append(" LIMIT ");
    let limit = limit_value(filter);
    r.append(limit.as_str());
    r.append(";");
    r
}

/// The value of the limit entry (of the last one, were there several).
fn limit_value(filter: &Vec<(String, String)>) -> (r: &String)
    requires
        has_limit(entries_view(filter@)),
    ensures
        r@ == limit_of(entries_view(filter@)),
{
    let limit = String::from_str("limit");
    let mut i: usize = filter.len();
    assert(filter@.subrange(0, i as int) =~= filter@);
    while i > 0
        invariant
            i <= filter@.len(),
            limit@ == limit_key(),
            limit_of(entries_view(filter@)) == limit_of(entries_view(filter@.subrange(0, i as int))),
            has_limit(entries_view(filter@.subrange(0, i as int))),
        decreases i,
    {
        let ghost prefix = entries_view(filter@.subrange(0, i as int));
        assert(prefix.drop_last() =~= entries_view(filter@.subrange(0, i - 1)));
        if filter[i - 1].0 == limit {
            return &filter[i - 1].1;
        }
        i = i - 1;
        proof {
            let w = choose|j: int| 0 <= j < prefix.len() && (#[trigger] prefix[j]).0 == limit_key();
            assert(entries_view(filter@.subrange(0, i as int))[w].0 == limit_key());
        }
    }
    assert(entries_view(filter@.subrange(0, 0)).len() == 0);
    assert(false);
    &filter[0].1
}

/// Insert of a row: `fields` and `values` are literal lists, already quoted
/// by the caller.
pub fn insert_query(table: &str, fields: &str, values: &str) -> (r: String)
    ensures
        r@ == insert_text(table@, fields@, values@),
{
    let mut r = String::from_str("INSERT INTO ");
    r.append(table);
    r.append(" (");
    r.append(fields);
    r.append(") VALUES (");
    r.append(values);
    r.append(");");
    r
}

/// Re-read of the row that the last insert made.
pub fn last_inserted_query(table: &str) -> (r: String)
    ensures
        r@ == last_inserted_text(table@),
{
    let mut r = String::from_str("SELECT * FROM ");
    r.append(table);
    r.append(" WHERE id = last_insert_rowid()");
    r
}

/// Update of row `id`: each entry sets a field to a value.
pub fn update_query(table: &str, id: u32, fields: &Vec<(String, String)>) -> (r: String)
    requires
        keys_unique(entries_view(fields@)),
    ensures
        r@ == update_text(table@, id, entries_view(fields@)),
{
    let mut r = String::from_str("UPDATE ");
    r.append(table);
    r.append(" SET ");
    let (assignments, _) = join_equalities(fields, ",", false);
    r.append(assignments.as_str());
    r.append(" WHERE id = ");
    let digits = decimal_string(id);
    r.append(digits.as_str());
    r
}

/// Deletion of row `id`.
pub fn delete_query(table: &str, id: u32) -> (r: String)
    ensures
        r@ == delete_text(table@, id),
{
    let mut r = String::from_str("DELETE FROM ");
    r.append(table);
    r.append(" WHERE id = ");
    let digits = decimal_string(id);
    r.append(digits.as_str());
    r
}

/// Existence check of a row meeting a raw condition clause; the answer is
/// the boolean column `result`.
pub fn exists_query(table: &str, conditions: &str) -> (r: String)
    ensures
        r@ == exists_text(table@, conditions@),
{
    let mut r = String::from_str("SELECT EXISTS (SELECT 1 FROM ");
    r.append(table);
    r.append(" WHERE ");
    r.append(conditions);
    r.append(") AS result;");
    r
}

/// The `name` column of every row.
pub fn names_query(table: &str) -> (r: String)
    ensures
        r@ == names_text(table@),
{
    let mut r = String::from_str("SELECT name FROM ");
    r.append(table);
    r.append(";");
    r
}

/// The `name` column of row `id`.
pub fn name_by_id_query(table: &str, id: u32) -> (r: String)
    ensures
        r@ == name_by_id_text(table@, id),
{
    let mut r = String::from_str("SELECT name FROM ");
    r.append(table);
    r.append(" WHERE id = ");
    let digits = decimal_string(id);
    r.append(digits.as_str());
    r.append(";");
    r
}

/// The conditions of a filtered search are exactly its filter's entries but
/// the limit: each entry whose key is not the limit key gives the condition
/// `name = value`, and each condition is an entry of the filter whose key is
/// not the limit key.
pub proof fn lemma_find_conditions(filter: Seq<(Seq<char>, Seq<char>)>)
    ensures
        forall|i: int| 0 <= i < filter.len() && (#[trigger] filter[i]).0 != limit_key()
            ==> equalities(conditions(filter)).contains(filter[i].0 + " = "@ + filter[i].1),
        forall|j: int| 0 <= j < conditions(filter).len()
            ==> (#[trigger] conditions(filter)[j]).0 != limit_key() && filter.contains(conditions(filter)[j]),
{
    let pred = |e: (Seq<char>, Seq<char>)| e.0 != limit_key();
    let kept = conditions(filter);
    assert(kept == filter.filter(pred));
    assert forall|i: int| 0 <= i < filter.len() && (#[trigger] filter[i]).0 != limit_key()
        implies equalities(kept).contains(filter[i].0 + " = "@ + filter[i].1) by {
        filter.lemma_filter_contains(pred, i);
        let k = choose|k: int| 0 <= k < kept.len() && kept[k] == filter[i];
        assert(equalities(kept)[k] == filter[i].0 + " = "@ + filter[i].1);
    }
    assert forall|j: int| 0 <= j < kept.len()
        implies (#[trigger] kept[j]).0 != limit_key() && filter.contains(kept[j]) by {
        #[allow(deprecated)]
        filter.filter_lemma(pred);
        assert(kept.contains(kept[j]));
        filter.lemma_filter_contains_rev(pred, kept[j]);
        assert(pred(kept[j]));
    }
}

} // verus!
