//! ALTER scaffold: statements for the tables that a change of schema adds or drops.

use vstd::prelude::*;
use crate::diff::{absent_in_order, added_table_names, is_diff, lists_in_order, names_of_tables, table_names, V2DiffView};
use crate::ir::strings_view;
use crate::names::{lemma_sorted_lists_equal, names_at};
use crate::v2::{V2Schema, V2TableView};

verus! {

/// The members of `s` in `String` order (when `s` is a finite set of names).
pub open spec fn in_order(s: Set<Seq<char>>) -> Seq<Seq<char>> {
    choose|l: Seq<Seq<char>>| lists_in_order(l, s)
}

/// The marker line written for a table that the new schema adds.
pub open spec fn create_marker(n: Seq<char>) -> Seq<char> {
    "-- TODO: CREATE TABLE "@ + n + " (full definition)"@
}

/// The statement written for a table that the new schema drops.
pub open spec fn drop_statement(n: Seq<char>) -> Seq<char> {
    "DROP TABLE "@ + n + ";"@
}

/// The lines of the ALTER scaffold from `old` to `new`: a marker per added table, then a
/// `DROP TABLE` per removed table, each group in name order.
pub open spec fn alter_lines(old: Seq<V2TableView>, new: Seq<V2TableView>) -> Seq<Seq<char>> {
    in_order(added_table_names(old, new)).map_values(|n: Seq<char>| create_marker(n))
        + in_order(added_table_names(new, old)).map_values(|n: Seq<char>| drop_statement(n))
}

proof fn lemma_in_order(l: Seq<Seq<char>>, s: Set<Seq<char>>)
    requires
        lists_in_order(l, s),
    ensures
        in_order(s) == l,
{
    let c = in_order(s);
    assert(lists_in_order(c, s));
    lemma_sorted_lists_equal(c, l);
}

fn marker_lines(names: &Vec<String>, pos: &Vec<usize>) -> (r: Vec<String>)
    requires
        forall|i: int| 0 <= i < pos@.len() ==> (#[trigger] pos@[i]) < names@.len(),
    ensures
        strings_view(r@) == names_at(strings_view(names@), pos@).map_values(|n: Seq<char>| create_marker(n)),
{
    let mut r: Vec<String> = Vec::new();
    for i in 0..pos.len()
        invariant
            forall|i: int| 0 <= i < pos@.len() ==> (#[trigger] pos@[i]) < names@.len(),
            r@.len() == i,
            forall|k: int| 0 <= k < i ==> (#[trigger] r@[k])@ == create_marker(names@[pos@[k] as int]@),
    {
        let mut line = String::new();
        line.append("-- TODO: CREATE TABLE ");
        line.append(names[pos[i]].as_str());
        line.append(" (full definition)");
        r.push(line);
    }
    proof {
        assert(strings_view(r@) =~= names_at(strings_view(names@), pos@).map_values(|n: Seq<char>| create_marker(n)));
    }
    r
}

fn drop_lines(names: &Vec<String>, pos: &Vec<usize>, out: &mut Vec<String>)
    requires
        forall|i: int| 0 <= i < pos@.len() ==> (#[trigger] pos@[i]) < names@.len(),
    ensures
        strings_view(final(out)@) == strings_view(old(out)@) + names_at(strings_view(names@), pos@).map_values(|n: Seq<char>| drop_statement(n)),
{
    let ghost start = out@;
    for i in 0..pos.len()
        invariant
            forall|i: int| 0 <= i < pos@.len() ==> (#[trigger] pos@[i]) < names@.len(),
            out@.len() == start.len() + i,
            forall|k: int| 0 <= k < start.len() ==> out@[k] == start[k],
            forall|k: int| 0 <= k < i ==> (#[trigger] out@[start.len() + k])@ == drop_statement(names@[pos@[k] as int]@),
    {
        let mut line = String::new();
        line.append("DROP TABLE ");
        line.append(names[pos[i]].as_str());
        line.append(";");
        out.push(line);
    }
    proof {
        let rhs = strings_view(start) + names_at(strings_view(names@), pos@).map_values(|n: Seq<char>| drop_statement(n));
        assert forall|k: int| 0 <= k < out@.len() implies strings_view(out@)[k] == rhs[k] by {
            if k >= start.len() {
                assert(out@[start.len() + (k - start.len())] == out@[k]);
            }
        }
        assert(strings_view(out@) =~= strings_view(start) + names_at(strings_view(names@), pos@).map_values(|n: Seq<char>| drop_statement(n)));
    }
}

/// ALTER scaffold from `old` to `new`: for each table only in `new`, a marker line that
/// stands for its `CREATE TABLE`; then, for each table only in `old`, `DROP TABLE <name>;`.
/// Each group is in name order.
pub fn diff_to_alter_sql(old: &V2Schema, new: &V2Schema) -> (r: Vec<String>)
    ensures
        strings_view(r@) == alter_lines(old@.tables, new@.tables),
{
    let on = names_of_tables(&old.tables);
    let nn = names_of_tables(&new.tables);
    let add_pos = absent_in_order(&nn, &on);
    let rem_pos = absent_in_order(&on, &nn);
    proof {
        assert forall|i: int| 0 <= i < add_pos@.len() implies (#[trigger] add_pos@[i]) < nn@.len() by {
            assert(crate::names::is_last_in(strings_view(nn@), add_pos@[i] as int, nn@.len() as int));
        }
        assert forall|i: int| 0 <= i < rem_pos@.len() implies (#[trigger] rem_pos@[i]) < on@.len() by {
            assert(crate::names::is_last_in(strings_view(on@), rem_pos@[i] as int, on@.len() as int));
        }
        let ot = old@.tables;
        let nt = new@.tables;
        assert forall|x: Seq<char>| names_at(strings_view(nn@), add_pos@).contains(x) <==> added_table_names(ot, nt).contains(x) by {}
        assert forall|x: Seq<char>| names_at(strings_view(on@), rem_pos@).contains(x) <==> added_table_names(nt, ot).contains(x) by {}
        lemma_in_order(names_at(strings_view(nn@), add_pos@), added_table_names(ot, nt));
        lemma_in_order(names_at(strings_view(on@), rem_pos@), added_table_names(nt, ot));
    }
    let mut out = marker_lines(&nn, &add_pos);
    drop_lines(&on, &rem_pos, &mut out);
    out
}

/// The ALTER scaffold follows the diff: one marker per added table and one `DROP TABLE`
/// per removed table, in the diff's order.
pub proof fn law_alter_follows_diff(old: Seq<V2TableView>, new: Seq<V2TableView>, d: V2DiffView)
    requires
        is_diff(d, old, new),
    ensures
        alter_lines(old, new) == table_names(d.added_tables).map_values(|n: Seq<char>| create_marker(n))
            + d.removed_tables.map_values(|n: Seq<char>| drop_statement(n)),
{
    lemma_in_order(table_names(d.added_tables), added_table_names(old, new));
    lemma_in_order(d.removed_tables, added_table_names(new, old));
}

/// A schema needs no ALTER statement to become itself.
pub proof fn law_alter_with_itself_is_empty(t: Seq<V2TableView>)
    ensures
        alter_lines(t, t).len() == 0,
{
    let e = Seq::<Seq<char>>::empty();
    assert(lists_in_order(e, added_table_names(t, t)));
    lemma_in_order(e, added_table_names(t, t));
}

} // verus!
