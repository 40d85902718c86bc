//! Structural diff of two v2 schemas, and the ALTER scaffold built on table names.
//!
//! Tables are matched by name, and so are columns within a table; where a name
//! occurs more than once, its last entry is the one compared. Every list in a diff
//! is ordered by name (in `String` order) and names each table or column once.

use vstd::prelude::*;
use crate::ir::{opt_strings_view, strings_view};
use crate::names::{
    absent_mask, find_last, is_last_in, keep, kept, last_index, lemma_kept, lemma_last_in_is_last_index,
    lemma_last_index, lemma_sorted_lists_equal, listed, names_at, sorted_last_entries,
    sorted_last_entries_of,
};
use crate::text::strictly_sorted;
use crate::v2::{
    column_constraints_view, v2_columns_view, v2_tables_view, ColumnConstraint, V2Column,
    V2ColumnView, V2DataType, V2Schema, V2Table, V2TableView,
};

verus! {

#[derive(Debug)]
pub struct V2Diff {
    pub added_tables: Vec<V2Table>,
    pub removed_tables: Vec<String>,
    pub changed_tables: Vec<TableChange>,
}

#[derive(Debug)]
pub struct TableChange {
    pub name: String,
    pub added_columns: Vec<V2Column>,
    pub removed_columns: Vec<String>,
    pub changed_columns: Vec<ColumnChange>,
    pub pk_changed: bool,
}

#[derive(Debug)]
pub struct ColumnChange {
    pub name: String,
    pub before: V2Column,
    pub after: V2Column,
}

pub struct ColumnChangeView {
    pub name: Seq<char>,
    pub before: V2ColumnView,
    pub after: V2ColumnView,
}

pub struct TableChangeView {
    pub name: Seq<char>,
    pub added_columns: Seq<V2ColumnView>,
    pub removed_columns: Seq<Seq<char>>,
    pub changed_columns: Seq<ColumnChangeView>,
    pub pk_changed: bool,
}

pub struct V2DiffView {
    pub added_tables: Seq<V2TableView>,
    pub removed_tables: Seq<Seq<char>>,
    pub changed_tables: Seq<TableChangeView>,
}

impl View for ColumnChange {
    type V = ColumnChangeView;

    open spec fn view(&self) -> ColumnChangeView {
        ColumnChangeView { name: self.name@, before: self.before@, after: self.after@ }
    }
}

pub open spec fn column_changes_view(v: Seq<ColumnChange>) -> Seq<ColumnChangeView> {
    v.map_values(|c: ColumnChange| c@)
}

impl View for TableChange {
    type V = TableChangeView;

    open spec fn view(&self) -> TableChangeView {
        TableChangeView {
            name: self.name@,
            added_columns: v2_columns_view(self.added_columns@),
            removed_columns: strings_view(self.removed_columns@),
            changed_columns: column_changes_view(self.changed_columns@),
            pk_changed: self.pk_changed,
        }
    }
}

pub open spec fn table_changes_view(v: Seq<TableChange>) -> Seq<TableChangeView> {
    v.map_values(|c: TableChange| c@)
}

impl View for V2Diff {
    type V = V2DiffView;

    open spec fn view(&self) -> V2DiffView {
        V2DiffView {
            added_tables: v2_tables_view(self.added_tables@),
            removed_tables: strings_view(self.removed_tables@),
            changed_tables: table_changes_view(self.changed_tables@),
        }
    }
}

// ---------------------------------------------------------------------------
// What a diff is

pub open spec fn table_names(ts: Seq<V2TableView>) -> Seq<Seq<char>> {
    ts.map_values(|t: V2TableView| t.name)
}

pub open spec fn column_names(cs: Seq<V2ColumnView>) -> Seq<Seq<char>> {
    cs.map_values(|c: V2ColumnView| c.name)
}

/// The last table named `n`.
pub open spec fn table_named(ts: Seq<V2TableView>, n: Seq<char>) -> V2TableView {
    ts[last_index(table_names(ts), n)]
}

/// The last column named `n`.
pub open spec fn column_named(cs: Seq<V2ColumnView>, n: Seq<char>) -> V2ColumnView {
    cs[last_index(column_names(cs), n)]
}

/// `list` holds the members of `s`, each once, in `String` order.
pub open spec fn lists_in_order(list: Seq<Seq<char>>, s: Set<Seq<char>>) -> bool {
    &&& strictly_sorted(list)
    &&& forall|x: Seq<char>| list.contains(x) <==> s.contains(x)
}

/// Names of columns present on both sides whose last columns differ.
pub open spec fn changed_column_names(a: Seq<V2ColumnView>, b: Seq<V2ColumnView>) -> Set<Seq<char>> {
    Set::new(|n: Seq<char>| column_names(a).contains(n) && column_names(b).contains(n) && column_named(a, n) != column_named(b, n))
}

pub open spec fn added_column_names(a: Seq<V2ColumnView>, b: Seq<V2ColumnView>) -> Set<Seq<char>> {
    Set::new(|n: Seq<char>| column_names(b).contains(n) && !column_names(a).contains(n))
}

/// `tc` describes how table `b` differs from table `a`: columns added (as in `b`),
/// columns removed, columns changed (before and after), and whether the primary key
/// changed.
pub open spec fn is_table_change(tc: TableChangeView, a: V2TableView, b: V2TableView) -> bool {
    &&& lists_in_order(column_names(tc.added_columns), added_column_names(a.columns, b.columns))
    &&& forall|i: int| 0 <= i < tc.added_columns.len() ==> #[trigger] tc.added_columns[i] == column_named(b.columns, tc.added_columns[i].name)
    &&& lists_in_order(tc.removed_columns, added_column_names(b.columns, a.columns))
    &&& lists_in_order(tc.changed_columns.map_values(|c: ColumnChangeView| c.name), changed_column_names(a.columns, b.columns))
    &&& forall|i: int| 0 <= i < tc.changed_columns.len() ==> {
        &&& (#[trigger] tc.changed_columns[i]).before == column_named(a.columns, tc.changed_columns[i].name)
        &&& tc.changed_columns[i].after == column_named(b.columns, tc.changed_columns[i].name)
    }
    &&& tc.pk_changed == (a.primary_key != b.primary_key)
}

/// Table `b` differs from table `a` in its columns or its primary key.
pub open spec fn tables_differ(a: V2TableView, b: V2TableView) -> bool {
    ||| exists|n: Seq<char>| #[trigger] added_column_names(a.columns, b.columns).contains(n)
    ||| exists|n: Seq<char>| #[trigger] added_column_names(b.columns, a.columns).contains(n)
    ||| exists|n: Seq<char>| #[trigger] changed_column_names(a.columns, b.columns).contains(n)
    ||| a.primary_key != b.primary_key
}

pub open spec fn added_table_names(old: Seq<V2TableView>, new: Seq<V2TableView>) -> Set<Seq<char>> {
    Set::new(|n: Seq<char>| table_names(new).contains(n) && !table_names(old).contains(n))
}

pub open spec fn changed_table_names(old: Seq<V2TableView>, new: Seq<V2TableView>) -> Set<Seq<char>> {
    Set::new(|n: Seq<char>| table_names(old).contains(n) && table_names(new).contains(n)
        && tables_differ(table_named(old, n), table_named(new, n)))
}

/// `d` is the diff from `old` to `new`.
pub open spec fn is_diff(d: V2DiffView, old: Seq<V2TableView>, new: Seq<V2TableView>) -> bool {
    &&& lists_in_order(table_names(d.added_tables), added_table_names(old, new))
    &&& forall|i: int| 0 <= i < d.added_tables.len() ==> #[trigger] d.added_tables[i] == table_named(new, d.added_tables[i].name)
    &&& lists_in_order(d.removed_tables, added_table_names(new, old))
    &&& lists_in_order(d.changed_tables.map_values(|c: TableChangeView| c.name), changed_table_names(old, new))
    &&& forall|i: int| 0 <= i < d.changed_tables.len() ==> is_table_change(
        #[trigger] d.changed_tables[i],
        table_named(old, d.changed_tables[i].name),
        table_named(new, d.changed_tables[i].name),
    )
}

// ---------------------------------------------------------------------------
// Equality of IR values

fn strings_eq(a: &Vec<String>, b: &Vec<String>) -> (r: bool)
    ensures
        r == (strings_view(a@) == strings_view(b@)),
{
    if a.len() != b.len() {
        proof {
            assert(strings_view(a@).len() != strings_view(b@).len());
        }
        return false;
    }
    for i in 0..a.len()
        invariant
            a@.len() == b@.len(),
            forall|k: int| 0 <= k < i ==> a@[k]@ == b@[k]@,
    {
        if a[i] != b[i] {
            proof {
                assert(strings_view(a@)[i as int] != strings_view(b@)[i as int]);
            }
            return false;
        }
    }
    proof {
        assert(strings_view(a@) =~= strings_view(b@));
    }
    true
}

fn opt_strings_eq(a: &Option<Vec<String>>, b: &Option<Vec<String>>) -> (r: bool)
    ensures
        r == (opt_strings_view(*a) == opt_strings_view(*b)),
{
    match (a, b) {
        (Some(x), Some(y)) => strings_eq(x, y),
        (None, None) => true,
        _ => false,
    }
}

fn data_type_eq(a: &V2DataType, b: &V2DataType) -> (r: bool)
    ensures
        r == (a@ == b@),
{
    match (a, b) {
        (V2DataType::Integer { bits: x }, V2DataType::Integer { bits: y }) => *x == *y,
        (V2DataType::Boolean, V2DataType::Boolean) => true,
        (V2DataType::Float, V2DataType::Float) => true,
        (V2DataType::Double, V2DataType::Double) => true,
        (V2DataType::Varchar(x), V2DataType::Varchar(y)) => *x == *y,
        (V2DataType::Text, V2DataType::Text) => true,
        (V2DataType::Timestamp, V2DataType::Timestamp) => true,
        (V2DataType::Custom(x), V2DataType::Custom(y)) => *x == *y,
        _ => false,
    }
}

fn column_constraint_eq(a: &ColumnConstraint, b: &ColumnConstraint) -> (r: bool)
    ensures
        r == (a@ == b@),
{
    match (a, b) {
        (ColumnConstraint::NotNull, ColumnConstraint::NotNull) => true,
        (ColumnConstraint::Default(x), ColumnConstraint::Default(y)) => *x == *y,
        (ColumnConstraint::AutoIncrement, ColumnConstraint::AutoIncrement) => true,
        (ColumnConstraint::Check(x), ColumnConstraint::Check(y)) => *x == *y,
        _ => false,
    }
}

fn column_constraints_eq(a: &Vec<ColumnConstraint>, b: &Vec<ColumnConstraint>) -> (r: bool)
    ensures
        r == (column_constraints_view(a@) == column_constraints_view(b@)),
{
    if a.len() != b.len() {
        proof {
            assert(column_constraints_view(a@).len() != column_constraints_view(b@).len());
        }
        return false;
    }
    for i in 0..a.len()
        invariant
            a@.len() == b@.len(),
            forall|k: int| 0 <= k < i ==> a@[k]@ == b@[k]@,
    {
        if !column_constraint_eq(&a[i], &b[i]) {
            proof {
                assert(column_constraints_view(a@)[i as int] != column_constraints_view(b@)[i as int]);
            }
            return false;
        }
    }
    proof {
        assert(column_constraints_view(a@) =~= column_constraints_view(b@));
    }
    true
}

/// Two columns are equal in every field.
pub fn column_eq(a: &V2Column, b: &V2Column) -> (r: bool)
    ensures
        r == (a@ == b@),
{
    a.name == b.name && data_type_eq(&a.data_type, &b.data_type)
        && column_constraints_eq(&a.constraints, &b.constraints)
        && strings_eq(&a.annotations, &b.annotations)
}

// ---------------------------------------------------------------------------
// Building a diff

fn names_of_columns(cs: &Vec<V2Column>) -> (r: Vec<String>)
    ensures
        strings_view(r@) == column_names(v2_columns_view(cs@)),
{
    let mut r: Vec<String> = Vec::new();
    for i in 0..cs.len()
        invariant
            r@.len() == i,
            forall|k: int| 0 <= k < i ==> r@[k]@ == cs@[k].name@,
    {
        r.push(cs[i].name.clone());
    }
    proof {
        assert(strings_view(r@) =~= column_names(v2_columns_view(cs@)));
    }
    r
}

pub(crate) fn names_of_tables(ts: &Vec<V2Table>) -> (r: Vec<String>)
    ensures
        strings_view(r@) == table_names(v2_tables_view(ts@)),
{
    let mut r: Vec<String> = Vec::new();
    for i in 0..ts.len()
        invariant
            r@.len() == i,
            forall|k: int| 0 <= k < i ==> r@[k]@ == ts@[k].name@,
    {
        r.push(ts[i].name.clone());
    }
    proof {
        assert(strings_view(r@) =~= table_names(v2_tables_view(ts@)));
    }
    r
}

fn negate(m: &Vec<bool>) -> (r: Vec<bool>)
    ensures
        r@.len() == m@.len(),
        forall|j: int| 0 <= j < m@.len() ==> #[trigger] r@[j] == !m@[j],
{
    let mut r: Vec<bool> = Vec::new();
    for j in 0..m.len()
        invariant
            r@.len() == j,
            forall|i: int| 0 <= i < j ==> #[trigger] r@[i] == !m@[i],
    {
        r.push(!m[j]);
    }
    r
}

/// The entries of `names` that are absent from `other`, by last occurrence, in name
/// order.
pub(crate) fn absent_in_order(names: &Vec<String>, other: &Vec<String>) -> (r: Vec<usize>)
    ensures
        strictly_sorted(names_at(strings_view(names@), r@)),
        forall|x: Seq<char>| names_at(strings_view(names@), r@).contains(x) <==>
            (strings_view(names@).contains(x) && !strings_view(other@).contains(x)),
        forall|i: int| 0 <= i < r@.len() ==> is_last_in(strings_view(names@), #[trigger] r@[i] as int, names@.len() as int),
{
    let ghost sv = strings_view(names@);
    let order = sorted_last_entries_of(names);
    let mask = absent_mask(&order, names, other);
    let r = keep(&order, &mask);
    proof {
        lemma_kept(sv, order@, mask@, order@.len());
        selected_names(sv, order@, mask@, strings_view(other@), true);
    }
    r
}

/// The entries of `names` that are also in `other`, by last occurrence, in name order.
fn present_in_order(names: &Vec<String>, other: &Vec<String>) -> (r: Vec<usize>)
    ensures
        strictly_sorted(names_at(strings_view(names@), r@)),
        forall|x: Seq<char>| names_at(strings_view(names@), r@).contains(x) <==>
            (strings_view(names@).contains(x) && strings_view(other@).contains(x)),
        forall|i: int| 0 <= i < r@.len() ==> is_last_in(strings_view(names@), #[trigger] r@[i] as int, names@.len() as int),
{
    let ghost sv = strings_view(names@);
    let order = sorted_last_entries_of(names);
    let absent = absent_mask(&order, names, other);
    let mask = negate(&absent);
    let r = keep(&order, &mask);
    proof {
        lemma_kept(sv, order@, mask@, order@.len());
        selected_names(sv, order@, mask@, strings_view(other@), false);
    }
    r
}

/// What `lemma_kept` gives for a mask that tests membership in `other`.
proof fn selected_names(sv: Seq<Seq<char>>, order: Seq<usize>, mask: Seq<bool>, other: Seq<Seq<char>>, absent: bool)
    requires
        sorted_last_entries(sv, order),
        mask.len() == order.len(),
        forall|j: int| 0 <= j < order.len() ==> #[trigger] mask[j] == (other.contains(sv[order[j] as int]) != absent),
    ensures
        forall|x: Seq<char>| names_at(sv, kept(order, mask, order.len())).contains(x) <==>
            (sv.contains(x) && (other.contains(x) != absent)),
        forall|i: int| 0 <= i < kept(order, mask, order.len()).len() ==> is_last_in(sv, #[trigger] kept(order, mask, order.len())[i] as int, sv.len() as int),
        strictly_sorted(names_at(sv, kept(order, mask, order.len()))),
{
    let k = kept(order, mask, order.len());
    assert forall|j: int| 0 <= j < order.len() implies (#[trigger] order[j]) < sv.len() by {
        assert(is_last_in(sv, order[j] as int, sv.len() as int));
    }
    lemma_kept(sv, order, mask, order.len());
    assert forall|x: Seq<char>| names_at(sv, k).contains(x) <==> (sv.contains(x) && (other.contains(x) != absent)) by {
        if names_at(sv, k).contains(x) {
            let i = choose|i: int| 0 <= i < names_at(sv, k).len() && names_at(sv, k)[i] == x;
            let j = choose|j: int| 0 <= j < order.len() && mask[j] && k[i] == order[j];
            assert(is_last_in(sv, order[j] as int, sv.len() as int));
            assert(sv[order[j] as int] == x);
        }
        if sv.contains(x) && (other.contains(x) != absent) {
            let i = choose|i: int| 0 <= i < sv.len() && sv[i] == x;
            assert(listed(sv, order, sv[i]));
            let j = choose|j: int| 0 <= j < order.len() && sv[#[trigger] order[j] as int] == sv[i];
            assert(mask[j]);
        }
    }
    assert forall|i: int| 0 <= i < k.len() implies is_last_in(sv, #[trigger] k[i] as int, sv.len() as int) by {
        let j = choose|j: int| 0 <= j < order.len() && mask[j] && k[i] == order[j];
        assert(is_last_in(sv, order[j] as int, sv.len() as int));
    }
}

proof fn lemma_is_last(sv: Seq<Seq<char>>, i: int)
    requires
        is_last_in(sv, i, sv.len() as int),
    ensures
        last_index(sv, sv[i]) == i,
{
    lemma_last_in_is_last_index(sv, i);
}

/// How table `b` differs from table `a` (a table of the same name).
pub fn table_change(a: &V2Table, b: &V2Table) -> (r: (TableChange, bool))
    ensures
        r.0.name@ == a.name@,
        is_table_change(r.0@, a@, b@),
        r.1 == tables_differ(a@, b@),
{
    let ghost ac = a@.columns;
    let ghost bc = b@.columns;
    let an = names_of_columns(&a.columns);
    let bn = names_of_columns(&b.columns);
    let ghost asv = strings_view(an@);
    let ghost bsv = strings_view(bn@);
    assert(an@.len() == a.columns@.len() && bn@.len() == b.columns@.len()) by {
        assert(asv.len() == column_names(ac).len());
        assert(bsv.len() == column_names(bc).len());
    }

    // columns only in b
    let add_pos = absent_in_order(&bn, &an);
    let mut added_columns: Vec<V2Column> = Vec::new();
    for i in 0..add_pos.len()
        invariant
            bsv == strings_view(bn@),
            bsv == column_names(bc),
            bc == b@.columns,
            bn@.len() == b.columns@.len(),
            forall|i: int| 0 <= i < add_pos@.len() ==> is_last_in(bsv, #[trigger] add_pos@[i] as int, bn@.len() as int),
            added_columns@.len() == i,
            forall|k: int| 0 <= k < i ==> (#[trigger] added_columns@[k])@ == bc[add_pos@[k] as int],
    {
        proof {
            assert(is_last_in(bsv, add_pos@[i as int] as int, bn@.len() as int));
        }
        added_columns.push(b.columns[add_pos[i]].clone());
    }
    proof {
        let av = v2_columns_view(added_columns@);
        assert(column_names(av) =~= names_at(bsv, add_pos@));
        assert forall|i: int| 0 <= i < av.len() implies #[trigger] av[i] == column_named(bc, av[i].name) by {
            assert(is_last_in(bsv, add_pos@[i] as int, bn@.len() as int));
            lemma_is_last(bsv, add_pos@[i] as int);
        }
        assert forall|x: Seq<char>| column_names(av).contains(x) <==> added_column_names(ac, bc).contains(x) by {}
    }

    // columns only in a
    let rem_pos = absent_in_order(&an, &bn);
    let mut removed_columns: Vec<String> = Vec::new();
    for i in 0..rem_pos.len()
        invariant
            asv == strings_view(an@),
            forall|i: int| 0 <= i < rem_pos@.len() ==> is_last_in(asv, #[trigger] rem_pos@[i] as int, an@.len() as int),
            removed_columns@.len() == i,
            forall|k: int| 0 <= k < i ==> (#[trigger] removed_columns@[k])@ == asv[rem_pos@[k] as int],
    {
        proof {
            assert(is_last_in(asv, rem_pos@[i as int] as int, an@.len() as int));
        }
        removed_columns.push(an[rem_pos[i]].clone());
    }
    proof {
        assert(strings_view(removed_columns@) =~= names_at(asv, rem_pos@));
        assert forall|x: Seq<char>| strings_view(removed_columns@).contains(x) <==> added_column_names(bc, ac).contains(x) by {}
    }

    // columns in both whose last entries differ
    let both_pos = present_in_order(&an, &bn);
    let mut mask: Vec<bool> = Vec::new();
    let mut changed_columns: Vec<ColumnChange> = Vec::new();
    for i in 0..both_pos.len()
        invariant
            asv == strings_view(an@),
            bsv == strings_view(bn@),
            asv == column_names(ac),
            bsv == column_names(bc),
            ac == a@.columns,
            bc == b@.columns,
            an@.len() == a.columns@.len(),
            bn@.len() == b.columns@.len(),
            forall|i: int| 0 <= i < both_pos@.len() ==> is_last_in(asv, #[trigger] both_pos@[i] as int, an@.len() as int),
            forall|x: Seq<char>| names_at(asv, both_pos@).contains(x) <==> (asv.contains(x) && bsv.contains(x)),
            mask@.len() == i,
            forall|k: int| 0 <= k < i ==> #[trigger] mask@[k] == (column_named(ac, asv[both_pos@[k] as int]) != column_named(bc, asv[both_pos@[k] as int])),
            changed_columns@.len() == kept(both_pos@, mask@, i as nat).len(),
            forall|k: int| 0 <= k < changed_columns@.len() ==> {
                let p = kept(both_pos@, mask@, i as nat)[k] as int;
                &&& (#[trigger] changed_columns@[k])@.name == asv[p]
                &&& changed_columns@[k]@.before == column_named(ac, asv[p])
                &&& changed_columns@[k]@.after == column_named(bc, asv[p])
            },
    {
        let p = both_pos[i];
        proof {
            assert(is_last_in(asv, p as int, an@.len() as int));
            lemma_is_last(asv, p as int);
            assert(names_at(asv, both_pos@)[i as int] == asv[p as int]);
            assert(bsv.contains(asv[p as int]));
        }
        let q = find_last(&bn, &an[p]);
        let ghost old_mask = mask@;
        match q {
            Some(q) => {
                proof {
                    lemma_last_index(bsv, asv[p as int]);
                }
                let differs = !column_eq(&a.columns[p], &b.columns[q]);
                mask.push(differs);
                proof {
                    assert(kept(both_pos@, old_mask, i as nat) == kept(both_pos@, mask@, i as nat)) by {
                        lemma_kept_prefix(both_pos@, old_mask, mask@, i as nat);
                    }
                }
                if differs {
                    changed_columns.push(ColumnChange {
                        name: an[p].clone(),
                        before: a.columns[p].clone(),
                        after: b.columns[q].clone(),
                    });
                }
            },
            None => {
                proof {
                    assert(false);
                }
                mask.push(false);
            },
        }
    }
    proof {
        lemma_kept(asv, both_pos@, mask@, both_pos@.len());
        let cv = column_changes_view(changed_columns@);
        let kp = kept(both_pos@, mask@, both_pos@.len());
        assert(cv.map_values(|c: ColumnChangeView| c.name) =~= names_at(asv, kp));
        assert forall|x: Seq<char>| names_at(asv, kp).contains(x) <==> changed_column_names(ac, bc).contains(x) by {
            if names_at(asv, kp).contains(x) {
                let i = choose|i: int| 0 <= i < names_at(asv, kp).len() && names_at(asv, kp)[i] == x;
                let j = choose|j: int| 0 <= j < both_pos@.len() && mask@[j] && kp[i] == both_pos@[j];
                assert(names_at(asv, both_pos@)[j] == x);
            }
            if changed_column_names(ac, bc).contains(x) {
                assert(names_at(asv, both_pos@).contains(x));
                let j = choose|j: int| 0 <= j < both_pos@.len() && names_at(asv, both_pos@)[j] == x;
                assert(mask@[j]);
            }
        }
    }
    let pk_changed = !opt_strings_eq(&a.primary_key, &b.primary_key);
    let differs = added_columns.len() > 0 || removed_columns.len() > 0 || changed_columns.len() > 0 || pk_changed;
    let tc = TableChange {
        name: a.name.clone(),
        added_columns,
        removed_columns,
        changed_columns,
        pk_changed,
    };
    proof {
        let v = tc@;
        lemma_list_empty(column_names(v.added_columns), added_column_names(ac, bc));
        lemma_list_empty(v.removed_columns, added_column_names(bc, ac));
        lemma_list_empty(v.changed_columns.map_values(|c: ColumnChangeView| c.name), changed_column_names(ac, bc));
    }
    (tc, differs)
}

proof fn lemma_kept_prefix(order: Seq<usize>, m1: Seq<bool>, m2: Seq<bool>, k: nat)
    requires
        k <= m1.len(),
        k <= m2.len(),
        forall|j: int| 0 <= j < k ==> m1[j] == m2[j],
    ensures
        kept(order, m1, k) == kept(order, m2, k),
    decreases k,
{
    if k > 0 {
        lemma_kept_prefix(order, m1, m2, (k - 1) as nat);
    }
}

/// A list that holds exactly the members of `s` is empty exactly when `s` has no member.
proof fn lemma_list_empty(list: Seq<Seq<char>>, s: Set<Seq<char>>)
    requires
        forall|x: Seq<char>| list.contains(x) <==> s.contains(x),
    ensures
        (list.len() > 0) == (exists|x: Seq<char>| #[trigger] s.contains(x)),
{
    if list.len() > 0 {
        assert(list.contains(list[0]));
    }
}

/// The structural diff from `old` to `new`: tables added (as in `new`), tables
/// removed, and, for tables on both sides, how they changed.
pub fn diff_v2_schemas(old: &V2Schema, new: &V2Schema) -> (r: V2Diff)
    ensures
        is_diff(r@, old@.tables, new@.tables),
{
    let ghost ot = old@.tables;
    let ghost nt = new@.tables;
    let on = names_of_tables(&old.tables);
    let nn = names_of_tables(&new.tables);
    let ghost osv = strings_view(on@);
    let ghost nsv = strings_view(nn@);
    assert(on@.len() == old.tables@.len() && nn@.len() == new.tables@.len()) by {
        assert(osv.len() == table_names(ot).len());
        assert(nsv.len() == table_names(nt).len());
    }

    let add_pos = absent_in_order(&nn, &on);
    let mut added_tables: Vec<V2Table> = Vec::new();
    for i in 0..add_pos.len()
        invariant
            nsv == strings_view(nn@),
            nsv == table_names(nt),
            nt == new@.tables,
            nn@.len() == new.tables@.len(),
            forall|i: int| 0 <= i < add_pos@.len() ==> is_last_in(nsv, #[trigger] add_pos@[i] as int, nn@.len() as int),
            added_tables@.len() == i,
            forall|k: int| 0 <= k < i ==> (#[trigger] added_tables@[k])@ == nt[add_pos@[k] as int],
    {
        proof {
            assert(is_last_in(nsv, add_pos@[i as int] as int, nn@.len() as int));
        }
        added_tables.push(new.tables[add_pos[i]].clone());
    }
    proof {
        let av = v2_tables_view(added_tables@);
        assert(table_names(av) =~= names_at(nsv, add_pos@));
        assert forall|i: int| 0 <= i < av.len() implies #[trigger] av[i] == table_named(nt, av[i].name) by {
            assert(is_last_in(nsv, add_pos@[i] as int, nn@.len() as int));
            lemma_is_last(nsv, add_pos@[i] as int);
        }
        assert forall|x: Seq<char>| table_names(av).contains(x) <==> added_table_names(ot, nt).contains(x) by {}
    }

    let rem_pos = absent_in_order(&on, &nn);
    let mut removed_tables: Vec<String> = Vec::new();
    for i in 0..rem_pos.len()
        invariant
            osv == strings_view(on@),
            forall|i: int| 0 <= i < rem_pos@.len() ==> is_last_in(osv, #[trigger] rem_pos@[i] as int, on@.len() as int),
            removed_tables@.len() == i,
            forall|k: int| 0 <= k < i ==> (#[trigger] removed_tables@[k])@ == osv[rem_pos@[k] as int],
    {
        proof {
            assert(is_last_in(osv, rem_pos@[i as int] as int, on@.len() as int));
        }
        removed_tables.push(on[rem_pos[i]].clone());
    }
    proof {
        assert(strings_view(removed_tables@) =~= names_at(osv, rem_pos@));
        assert forall|x: Seq<char>| strings_view(removed_tables@).contains(x) <==> added_table_names(nt, ot).contains(x) by {}
    }

    let both_pos = present_in_order(&on, &nn);
    let mut mask: Vec<bool> = Vec::new();
    let mut changed_tables: Vec<TableChange> = Vec::new();
    for i in 0..both_pos.len()
        invariant
            osv == strings_view(on@),
            nsv == strings_view(nn@),
            osv == table_names(ot),
            nsv == table_names(nt),
            ot == old@.tables,
            nt == new@.tables,
            on@.len() == old.tables@.len(),
            nn@.len() == new.tables@.len(),
            forall|i: int| 0 <= i < both_pos@.len() ==> is_last_in(osv, #[trigger] both_pos@[i] as int, on@.len() as int),
            forall|x: Seq<char>| names_at(osv, both_pos@).contains(x) <==> (osv.contains(x) && nsv.contains(x)),
            mask@.len() == i,
            forall|k: int| 0 <= k < i ==> #[trigger] mask@[k] == tables_differ(table_named(ot, osv[both_pos@[k] as int]), table_named(nt, osv[both_pos@[k] as int])),
            changed_tables@.len() == kept(both_pos@, mask@, i as nat).len(),
            forall|k: int| 0 <= k < changed_tables@.len() ==> {
                let p = kept(both_pos@, mask@, i as nat)[k] as int;
                &&& (#[trigger] changed_tables@[k])@.name == osv[p]
                &&& is_table_change(changed_tables@[k]@, table_named(ot, osv[p]), table_named(nt, osv[p]))
            },
    {
        let p = both_pos[i];
        proof {
            assert(is_last_in(osv, p as int, on@.len() as int));
            lemma_is_last(osv, p as int);
            assert(names_at(osv, both_pos@)[i as int] == osv[p as int]);
            assert(nsv.contains(osv[p as int]));
        }
        let q = find_last(&nn, &on[p]);
        let ghost old_mask = mask@;
        match q {
            Some(q) => {
                proof {
                    lemma_last_index(nsv, osv[p as int]);
                }
                let (tc, differs) = table_change(&old.tables[p], &new.tables[q]);
                mask.push(differs);
                proof {
                    lemma_kept_prefix(both_pos@, old_mask, mask@, i as nat);
                }
                if differs {
                    changed_tables.push(tc);
                }
            },
            None => {
                proof {
                    assert(false);
                }
                mask.push(false);
            },
        }
    }
    proof {
        lemma_kept(osv, both_pos@, mask@, both_pos@.len());
        let cv = table_changes_view(changed_tables@);
        let kp = kept(both_pos@, mask@, both_pos@.len());
        assert(cv.map_values(|c: TableChangeView| c.name) =~= names_at(osv, kp));
        assert forall|x: Seq<char>| names_at(osv, kp).contains(x) <==> changed_table_names(ot, nt).contains(x) by {
            if names_at(osv, kp).contains(x) {
                let i = choose|i: int| 0 <= i < names_at(osv, kp).len() && names_at(osv, kp)[i] == x;
                let j = choose|j: int| 0 <= j < both_pos@.len() && mask@[j] && kp[i] == both_pos@[j];
                assert(names_at(osv, both_pos@)[j] == x);
            }
            if changed_table_names(ot, nt).contains(x) {
                assert(names_at(osv, both_pos@).contains(x));
                let j = choose|j: int| 0 <= j < both_pos@.len() && names_at(osv, both_pos@)[j] == x;
                assert(mask@[j]);
            }
        }
    }
    V2Diff { added_tables, removed_tables, changed_tables }
}

// ---------------------------------------------------------------------------
// Laws

proof fn lemma_empty_listing(list: Seq<Seq<char>>, s: Set<Seq<char>>)
    requires
        lists_in_order(list, s),
        forall|x: Seq<char>| !s.contains(x),
    ensures
        list.len() == 0,
{
    if list.len() > 0 {
        assert(list.contains(list[0]));
    }
}

/// A table never differs from itself.
pub proof fn law_table_does_not_differ_from_itself(t: V2TableView)
    ensures
        !tables_differ(t, t),
{
    assert(forall|n: Seq<char>| !added_column_names(t.columns, t.columns).contains(n));
    assert(forall|n: Seq<char>| !changed_column_names(t.columns, t.columns).contains(n));
}

/// Diffing a schema against itself finds no added, removed or changed table.
pub proof fn law_diff_with_itself_is_empty(t: Seq<V2TableView>, d: V2DiffView)
    requires
        is_diff(d, t, t),
    ensures
        d.added_tables.len() == 0,
        d.removed_tables.len() == 0,
        d.changed_tables.len() == 0,
{
    lemma_empty_listing(table_names(d.added_tables), added_table_names(t, t));
    lemma_empty_listing(d.removed_tables, added_table_names(t, t));
    assert forall|x: Seq<char>| !changed_table_names(t, t).contains(x) by {
        law_table_does_not_differ_from_itself(table_named(t, x));
    }
    lemma_empty_listing(d.changed_tables.map_values(|c: TableChangeView| c.name), changed_table_names(t, t));
}

/// The diff accounts for every table of `new`: a name is in `new` exactly when it is
/// in `old` and not removed, or it is added.
pub proof fn law_diff_accounts_for_every_table(old: Seq<V2TableView>, new: Seq<V2TableView>, d: V2DiffView)
    requires
        is_diff(d, old, new),
    ensures
        forall|x: Seq<char>| table_names(new).contains(x) <==>
            ((table_names(old).contains(x) && !d.removed_tables.contains(x)) || table_names(d.added_tables).contains(x)),
{
    assert forall|x: Seq<char>| table_names(new).contains(x) <==>
        ((table_names(old).contains(x) && !d.removed_tables.contains(x)) || table_names(d.added_tables).contains(x)) by {
        assert(d.removed_tables.contains(x) <==> added_table_names(new, old).contains(x));
        assert(table_names(d.added_tables).contains(x) <==> added_table_names(old, new).contains(x));
    }
}

/// Swapping the two schemas swaps added and removed tables: the tables removed going
/// from `a` to `b` are, by name, the tables added going from `b` to `a`, and the other
/// way round; and the same tables are reported as changed.
pub proof fn law_diff_reversed(a: Seq<V2TableView>, b: Seq<V2TableView>, d1: V2DiffView, d2: V2DiffView)
    requires
        is_diff(d1, a, b),
        is_diff(d2, b, a),
    ensures
        d1.removed_tables == table_names(d2.added_tables),
        table_names(d1.added_tables) == d2.removed_tables,
        d1.changed_tables.map_values(|c: TableChangeView| c.name) == d2.changed_tables.map_values(|c: TableChangeView| c.name),
{
    lemma_sorted_lists_equal(d1.removed_tables, table_names(d2.added_tables));
    lemma_sorted_lists_equal(table_names(d1.added_tables), d2.removed_tables);
    assert forall|x: Seq<char>| changed_table_names(a, b).contains(x) <==> changed_table_names(b, a).contains(x) by {
        let ta = table_named(a, x);
        let tb = table_named(b, x);
        assert(tables_differ(ta, tb) == tables_differ(tb, ta)) by {
            assert(forall|n: Seq<char>| changed_column_names(ta.columns, tb.columns).contains(n) <==> changed_column_names(tb.columns, ta.columns).contains(n));
        }
    }
    lemma_sorted_lists_equal(
        d1.changed_tables.map_values(|c: TableChangeView| c.name),
        d2.changed_tables.map_values(|c: TableChangeView| c.name),
    );
}

/// Reversing a table change: the columns added one way are removed the other way and
/// back, the same columns change, each with before and after swapped, and the key flag
/// is the same.
pub proof fn law_table_change_reversed(a: V2TableView, b: V2TableView, t1: TableChangeView, t2: TableChangeView)
    requires
        is_table_change(t1, a, b),
        is_table_change(t2, b, a),
    ensures
        column_names(t1.added_columns) == t2.removed_columns,
        t1.removed_columns == column_names(t2.added_columns),
        t1.changed_columns.len() == t2.changed_columns.len(),
        forall|j: int| 0 <= j < t1.changed_columns.len() ==> {
            &&& (#[trigger] t1.changed_columns[j]).name == t2.changed_columns[j].name
            &&& t1.changed_columns[j].before == t2.changed_columns[j].after
            &&& t1.changed_columns[j].after == t2.changed_columns[j].before
        },
        t1.pk_changed == t2.pk_changed,
{
    lemma_sorted_lists_equal(column_names(t1.added_columns), t2.removed_columns);
    lemma_sorted_lists_equal(t1.removed_columns, column_names(t2.added_columns));
    let n1 = t1.changed_columns.map_values(|c: ColumnChangeView| c.name);
    let n2 = t2.changed_columns.map_values(|c: ColumnChangeView| c.name);
    assert forall|x: Seq<char>| changed_column_names(a.columns, b.columns).contains(x)
        <==> changed_column_names(b.columns, a.columns).contains(x) by {}
    lemma_sorted_lists_equal(n1, n2);
    assert forall|j: int| 0 <= j < t1.changed_columns.len() implies {
        &&& (#[trigger] t1.changed_columns[j]).name == t2.changed_columns[j].name
        &&& t1.changed_columns[j].before == t2.changed_columns[j].after
        &&& t1.changed_columns[j].after == t2.changed_columns[j].before
    } by {
        assert(n1[j] == n2[j]);
    }
}

/// Swapping the two schemas reverses the whole diff: added and removed tables swap,
/// and the same tables change, each change reversed as `law_table_change_reversed`
/// says.
pub proof fn law_diff_fully_reversed(a: Seq<V2TableView>, b: Seq<V2TableView>, d1: V2DiffView, d2: V2DiffView)
    requires
        is_diff(d1, a, b),
        is_diff(d2, b, a),
    ensures
        d1.removed_tables == table_names(d2.added_tables),
        table_names(d1.added_tables) == d2.removed_tables,
        d1.changed_tables.len() == d2.changed_tables.len(),
        forall|k: int| 0 <= k < d1.changed_tables.len() ==> {
            let t1 = #[trigger] d1.changed_tables[k];
            let t2 = d2.changed_tables[k];
            &&& t1.name == t2.name
            &&& column_names(t1.added_columns) == t2.removed_columns
            &&& t1.removed_columns == column_names(t2.added_columns)
            &&& t1.changed_columns.len() == t2.changed_columns.len()
            &&& forall|j: int| 0 <= j < t1.changed_columns.len() ==> {
                &&& (#[trigger] t1.changed_columns[j]).name == t2.changed_columns[j].name
                &&& t1.changed_columns[j].before == t2.changed_columns[j].after
                &&& t1.changed_columns[j].after == t2.changed_columns[j].before
            }
            &&& t1.pk_changed == t2.pk_changed
        },
{
    law_diff_reversed(a, b, d1, d2);
    let n1 = d1.changed_tables.map_values(|c: TableChangeView| c.name);
    let n2 = d2.changed_tables.map_values(|c: TableChangeView| c.name);
    assert forall|k: int| 0 <= k < d1.changed_tables.len() implies {
        let t1 = #[trigger] d1.changed_tables[k];
        let t2 = d2.changed_tables[k];
        &&& t1.name == t2.name
        &&& column_names(t1.added_columns) == t2.removed_columns
        &&& t1.removed_columns == column_names(t2.added_columns)
        &&& t1.changed_columns.len() == t2.changed_columns.len()
        &&& forall|j: int| 0 <= j < t1.changed_columns.len() ==> {
            &&& (#[trigger] t1.changed_columns[j]).name == t2.changed_columns[j].name
            &&& t1.changed_columns[j].before == t2.changed_columns[j].after
            &&& t1.changed_columns[j].after == t2.changed_columns[j].before
        }
        &&& t1.pk_changed == t2.pk_changed
    } by {
        assert(n1[k] == n2[k]);
        let x = n1[k];
        law_table_change_reversed(table_named(a, x), table_named(b, x), d1.changed_tables[k], d2.changed_tables[k]);
    }
}

/// Two tables agree on all that a diff compares: the same column names, the same last
/// column under each name, and the same primary key. Column order beyond that and
/// table-level constraints do not count.
pub open spec fn tables_alike(a: V2TableView, b: V2TableView) -> bool {
    &&& forall|n: Seq<char>| column_names(a.columns).contains(n) <==> column_names(b.columns).contains(n)
    &&& forall|n: Seq<char>| column_names(a.columns).contains(n) ==> column_named(a.columns, n) == column_named(b.columns, n)
    &&& a.primary_key == b.primary_key
}

/// Two table lists agree for a diff against `other`: the same table names, the last
/// table of each name alike, and the same for a name that `other` lacks (such a table
/// is reported whole). The order of the tables does not count.
pub open spec fn schemas_alike(x: Seq<V2TableView>, y: Seq<V2TableView>, other: Seq<V2TableView>) -> bool {
    &&& forall|n: Seq<char>| table_names(x).contains(n) <==> table_names(y).contains(n)
    &&& forall|n: Seq<char>| table_names(x).contains(n) ==> tables_alike(table_named(x, n), table_named(y, n))
    &&& forall|n: Seq<char>| table_names(x).contains(n) && !table_names(other).contains(n) ==> table_named(x, n) == table_named(y, n)
}

proof fn lemma_table_change_alike(tc: TableChangeView, a: V2TableView, b: V2TableView, b2: V2TableView)
    requires
        is_table_change(tc, a, b),
        tables_alike(b, b2),
    ensures
        is_table_change(tc, a, b2),
        tables_differ(a, b) == tables_differ(a, b2),
{
    assert(added_column_names(a.columns, b.columns) =~= added_column_names(a.columns, b2.columns));
    assert(added_column_names(b.columns, a.columns) =~= added_column_names(b2.columns, a.columns));
    assert(changed_column_names(a.columns, b.columns) =~= changed_column_names(a.columns, b2.columns));
    assert forall|i: int| 0 <= i < tc.added_columns.len() implies #[trigger] tc.added_columns[i] == column_named(b2.columns, tc.added_columns[i].name) by {
        assert(column_names(tc.added_columns).contains(tc.added_columns[i].name)) by {
            assert(column_names(tc.added_columns)[i] == tc.added_columns[i].name);
        }
    }
    assert forall|i: int| 0 <= i < tc.changed_columns.len() implies (#[trigger] tc.changed_columns[i]).after == column_named(b2.columns, tc.changed_columns[i].name) by {
        let names = tc.changed_columns.map_values(|c: ColumnChangeView| c.name);
        assert(names[i] == tc.changed_columns[i].name);
        assert(names.contains(tc.changed_columns[i].name));
    }
}

/// The diff depends on `new` only through what `schemas_alike` keeps: reordering the
/// tables or their columns (where names are unique), replacing table-level
/// constraints of tables that `old` also has, or changing the metadata (which the diff
/// never reads) leaves it as it is.
pub proof fn law_diff_ignores_order_and_extras(old: Seq<V2TableView>, new: Seq<V2TableView>, new2: Seq<V2TableView>, d: V2DiffView)
    requires
        is_diff(d, old, new),
        schemas_alike(new, new2, old),
    ensures
        is_diff(d, old, new2),
{
    assert(added_table_names(old, new) =~= added_table_names(old, new2));
    assert(added_table_names(new, old) =~= added_table_names(new2, old));
    assert forall|n: Seq<char>| changed_table_names(old, new).contains(n) <==> changed_table_names(old, new2).contains(n) by {
        if table_names(old).contains(n) && table_names(new).contains(n) {
            let tn = table_named(new, n);
            let tn2 = table_named(new2, n);
            assert(tables_differ(table_named(old, n), tn) == tables_differ(table_named(old, n), tn2)) by {
                assert(added_column_names(table_named(old, n).columns, tn.columns) =~= added_column_names(table_named(old, n).columns, tn2.columns));
                assert(added_column_names(tn.columns, table_named(old, n).columns) =~= added_column_names(tn2.columns, table_named(old, n).columns));
                assert(changed_column_names(table_named(old, n).columns, tn.columns) =~= changed_column_names(table_named(old, n).columns, tn2.columns));
            }
        }
    }
    assert(changed_table_names(old, new) =~= changed_table_names(old, new2));
    assert forall|i: int| 0 <= i < d.added_tables.len() implies #[trigger] d.added_tables[i] == table_named(new2, d.added_tables[i].name) by {
        let x = d.added_tables[i].name;
        assert(table_names(d.added_tables)[i] == x);
        assert(table_names(d.added_tables).contains(x));
    }
    let cn = d.changed_tables.map_values(|c: TableChangeView| c.name);
    assert forall|i: int| 0 <= i < d.changed_tables.len() implies is_table_change(
        #[trigger] d.changed_tables[i],
        table_named(old, d.changed_tables[i].name),
        table_named(new2, d.changed_tables[i].name),
    ) by {
        let x = d.changed_tables[i].name;
        assert(cn[i] == x);
        assert(cn.contains(x));
        lemma_table_change_alike(d.changed_tables[i], table_named(old, x), table_named(new, x), table_named(new2, x));
    }
}

} // verus!
