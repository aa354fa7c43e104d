//! Comparing a previously stored schema with the current one.
use vstd::prelude::*;

use crate::db_types::{composites_model, Composite, CompositeModel};
use crate::schema::{tables_model, Column, ColumnModel, Schema, SchemaModel, Table, TableModel};

verus! {

/// The views of a sequence of strings.
pub open spec fn strs(v: Seq<String>) -> Seq<Seq<char>> {
    v.map_values(|s: String| s@)
}

/// The last position at which `n` occurs in `names`.
pub open spec fn last_index(names: Seq<Seq<char>>, n: Seq<char>) -> Option<int>
    decreases names.len(),
{
    if names.len() == 0 {
        None
    } else if names.last() == n {
        Some(names.len() - 1)
    } else {
        last_index(names.drop_last(), n)
    }
}

/// The names of `cur` that do not occur in `prev`, in the order of `cur`.
pub open spec fn added_names(prev: Seq<Seq<char>>, cur: Seq<Seq<char>>) -> Seq<Seq<char>>
    decreases cur.len(),
{
    if cur.len() == 0 {
        Seq::empty()
    } else if prev.contains(cur.last()) {
        added_names(prev, cur.drop_last())
    } else {
        added_names(prev, cur.drop_last()).push(cur.last())
    }
}

/// The names of the items of `cur` whose namesake in `prev` differs, in the
/// order of `cur`.
pub open spec fn changed_names<A>(prev: Seq<A>, cur: Seq<A>, name_of: spec_fn(A) -> Seq<char>) -> Seq<Seq<char>>
    decreases cur.len(),
{
    if cur.len() == 0 {
        Seq::empty()
    } else {
        let rest = changed_names(prev, cur.drop_last(), name_of);
        match last_index(prev.map_values(name_of), name_of(cur.last())) {
            Some(j) => if prev[j] != cur.last() {
                rest.push(name_of(cur.last()))
            } else {
                rest
            },
            None => rest,
        }
    }
}

pub open spec fn column_name(c: ColumnModel) -> Seq<char> {
    c.name
}

pub open spec fn table_name(t: TableModel) -> Seq<char> {
    t.name
}

pub open spec fn composite_name(c: CompositeModel) -> Seq<char> {
    c.name
}

/// Mathematical value of a [`TableChange`].
pub struct TableChangeModel {
    pub name: Seq<char>,
    pub columns_added: Seq<Seq<char>>,
    pub columns_removed: Seq<Seq<char>>,
    pub columns_changed: Seq<Seq<char>>,
}

/// How the columns of a table present on both sides differ.
pub struct TableChange {
    pub name: String,
    pub columns_added: Vec<String>,
    pub columns_removed: Vec<String>,
    pub columns_changed: Vec<String>,
}

impl View for TableChange {
    type V = TableChangeModel;

    open spec fn view(&self) -> TableChangeModel {
        TableChangeModel {
            name: self.name@,
            columns_added: strs(self.columns_added@),
            columns_removed: strs(self.columns_removed@),
            columns_changed: strs(self.columns_changed@),
        }
    }
}

/// The column changes between two versions of a table: columns by name,
/// changed when their type differs.
pub open spec fn table_change(prev: TableModel, cur: TableModel) -> TableChangeModel {
    let pn = prev.columns.map_values(|c| column_name(c));
    let cn = cur.columns.map_values(|c| column_name(c));
    TableChangeModel {
        name: cur.name,
        columns_added: added_names(pn, cn),
        columns_removed: added_names(cn, pn),
        columns_changed: changed_names(prev.columns, cur.columns, |c| column_name(c)),
    }
}

pub open spec fn is_empty_change(c: TableChangeModel) -> bool {
    c.columns_added.len() == 0 && c.columns_removed.len() == 0 && c.columns_changed.len() == 0
}

/// The tables of `cur` present in `prev` whose columns changed, in the order of `cur`.
pub open spec fn changed_tables(prev: Seq<TableModel>, cur: Seq<TableModel>) -> Seq<TableChangeModel>
    decreases cur.len(),
{
    if cur.len() == 0 {
        Seq::empty()
    } else {
        let rest = changed_tables(prev, cur.drop_last());
        match last_index(prev.map_values(|t| table_name(t)), cur.last().name) {
            Some(j) => if !is_empty_change(table_change(prev[j], cur.last())) {
                rest.push(table_change(prev[j], cur.last()))
            } else {
                rest
            },
            None => rest,
        }
    }
}

/// Mathematical value of a [`SchemaDiff`].
pub struct SchemaDiffModel {
    pub tables_added: Seq<Seq<char>>,
    pub tables_removed: Seq<Seq<char>>,
    pub tables_changed: Seq<TableChangeModel>,
    pub composites_added: Seq<Seq<char>>,
    pub composites_removed: Seq<Seq<char>>,
    pub composites_changed: Seq<Seq<char>>,
}

/// The structural changes from `prev` to `cur`: tables and composites
/// compared by name, columns by name within a table.
pub open spec fn diff_spec(prev: SchemaModel, cur: SchemaModel) -> SchemaDiffModel {
    let pt = prev.tables.map_values(|t| table_name(t));
    let ct = cur.tables.map_values(|t| table_name(t));
    let pc = prev.composites.map_values(|c| composite_name(c));
    let cc = cur.composites.map_values(|c| composite_name(c));
    SchemaDiffModel {
        tables_added: added_names(pt, ct),
        tables_removed: added_names(ct, pt),
        tables_changed: changed_tables(prev.tables, cur.tables),
        composites_added: added_names(pc, cc),
        composites_removed: added_names(cc, pc),
        composites_changed: changed_names(prev.composites, cur.composites, |c| composite_name(c)),
    }
}

/// The change-set between a stored schema and the current one.
pub struct SchemaDiff {
    pub tables_added: Vec<String>,
    pub tables_removed: Vec<String>,
    pub tables_changed: Vec<TableChange>,
    pub composites_added: Vec<String>,
    pub composites_removed: Vec<String>,
    pub composites_changed: Vec<String>,
}

impl View for SchemaDiff {
    type V = SchemaDiffModel;

    open spec fn view(&self) -> SchemaDiffModel {
        SchemaDiffModel {
            tables_added: strs(self.tables_added@),
            tables_removed: strs(self.tables_removed@),
            tables_changed: self.tables_changed@.map_values(|c: TableChange| c@),
            composites_added: strs(self.composites_added@),
            composites_removed: strs(self.composites_removed@),
            composites_changed: strs(self.composites_changed@),
        }
    }
}

/// Nothing was added, removed or changed.
pub open spec fn is_empty_diff(d: SchemaDiffModel) -> bool {
    d.tables_added.len() == 0 && d.tables_removed.len() == 0 && d.tables_changed.len() == 0
        && d.composites_added.len() == 0 && d.composites_removed.len() == 0
        && d.composites_changed.len() == 0
}

impl SchemaDiff {
    /// Whether nothing was added, removed or changed.
    pub fn is_empty(&self) -> (r: bool)
        ensures
            r == is_empty_diff(self@),
    {
        self.tables_added.len() == 0 && self.tables_removed.len() == 0 && self.tables_changed.len() == 0
            && self.composites_added.len() == 0 && self.composites_removed.len() == 0
            && self.composites_changed.len() == 0
    }
}

proof fn lemma_last_index(names: Seq<Seq<char>>, n: Seq<char>)
    ensures
        match last_index(names, n) {
            Some(j) => 0 <= j < names.len() && names[j] == n,
            None => !names.contains(n),
        },
    decreases names.len(),
{
    if names.len() > 0 && names.last() != n {
        lemma_last_index(names.drop_last(), n);
        if names.contains(n) {
            let k = choose|k: int| 0 <= k < names.len() && names[k] == n;
            assert(names.drop_last()[k] == n);
        }
    }
}

/// The last position at which `n` occurs in `names`.
fn find_last(names: &Vec<String>, n: &String) -> (r: Option<usize>)
    ensures
        r matches Some(j) ==> last_index(strs(names@), n@) == Some(j as int),
        r is None ==> last_index(strs(names@), n@) is None,
{
    let ghost ns = strs(names@);
    let mut found: Option<usize> = None;
    for i in 0..names.len()
        invariant
            ns == strs(names@),
            found matches Some(j) ==> last_index(ns.take(i as int), n@) == Some(j as int),
            found is None ==> last_index(ns.take(i as int), n@) is None,
    {
        proof {
            assert(ns.take(i + 1).drop_last() =~= ns.take(i as int));
        }
        if names[i] == *n {
            found = Some(i);
        }
    }
    assert(ns.take(names@.len() as int) =~= ns);
    found
}

/// The names of `cur` that do not occur in `prev`, in the order of `cur`.
fn added(prev: &Vec<String>, cur: &Vec<String>) -> (r: Vec<String>)
    ensures
        strs(r@) == added_names(strs(prev@), strs(cur@)),
{
    let ghost cs = strs(cur@);
    let mut r: Vec<String> = Vec::new();
    assert(strs(r@) =~= Seq::<Seq<char>>::empty());
    for i in 0..cur.len()
        invariant
            cs == strs(cur@),
            strs(r@) == added_names(strs(prev@), cs.take(i as int)),
    {
        proof {
            assert(cs.take(i + 1).drop_last() =~= cs.take(i as int));
            lemma_last_index(strs(prev@), cur@[i as int]@);
        }
        let found = find_last(prev, &cur[i]);
        if found.is_none() {
            let ghost before = strs(r@);
            r.push(cur[i].clone());
            assert(strs(r@) =~= before.push(cur@[i as int]@));
        } else {
            proof {
                let j = found.unwrap();
                assert(strs(prev@)[j as int] == cur@[i as int]@);
            }
        }
    }
    assert(cs.take(cur@.len() as int) =~= cs);
    r
}

fn column_names(v: &Vec<Column>) -> (r: Vec<String>)
    ensures
        strs(r@) == v@.map_values(|c: Column| c@).map_values(|c| column_name(c)),
{
    let mut r: Vec<String> = Vec::new();
    for i in 0..v.len()
        invariant
            r@.len() == i,
            forall|k: int| 0 <= k < i ==> (#[trigger] r@[k])@ == v@[k]@.name,
    {
        r.push(v[i].name().clone());
    }
    assert(strs(r@) =~= v@.map_values(|c: Column| c@).map_values(|c| column_name(c)));
    r
}

fn table_names(v: &Vec<Table>) -> (r: Vec<String>)
    ensures
        strs(r@) == tables_model(v@).map_values(|t| table_name(t)),
{
    let mut r: Vec<String> = Vec::new();
    for i in 0..v.len()
        invariant
            r@.len() == i,
            forall|k: int| 0 <= k < i ==> (#[trigger] r@[k])@ == v@[k]@.name,
    {
        r.push(v[i].name().clone());
    }
    assert(strs(r@) =~= tables_model(v@).map_values(|t| table_name(t)));
    r
}

fn composite_names(v: &Vec<Composite>) -> (r: Vec<String>)
    ensures
        strs(r@) == composites_model(v@).map_values(|c| composite_name(c)),
{
    let mut r: Vec<String> = Vec::new();
    for i in 0..v.len()
        invariant
            r@.len() == i,
            forall|k: int| 0 <= k < i ==> (#[trigger] r@[k])@ == v@[k]@.name,
    {
        r.push(v[i].name.clone());
    }
    assert(strs(r@) =~= composites_model(v@).map_values(|c| composite_name(c)));
    r
}

/// The names of the columns of `cur` whose namesake in `prev` has another type.
fn changed_columns(prev: &Vec<Column>, cur: &Vec<Column>) -> (r: Vec<String>)
    ensures
        strs(r@) == changed_names(
            prev@.map_values(|c: Column| c@),
            cur@.map_values(|c: Column| c@),
            |c| column_name(c),
        ),
{
    let ghost pm = prev@.map_values(|c: Column| c@);
    let ghost cm = cur@.map_values(|c: Column| c@);
    let pn = column_names(prev);
    let mut r: Vec<String> = Vec::new();
    assert(strs(r@) =~= Seq::<Seq<char>>::empty());
    for i in 0..cur.len()
        invariant
            pm == prev@.map_values(|c: Column| c@),
            cm == cur@.map_values(|c: Column| c@),
            strs(pn@) == pm.map_values(|c| column_name(c)),
            strs(r@) == changed_names(pm, cm.take(i as int), |c| column_name(c)),
    {
        proof {
            assert(cm.take(i + 1).drop_last() =~= cm.take(i as int));
            assert(cm.take(i + 1).last() == cur@[i as int]@);
        }
        let found = find_last(&pn, cur[i].name());
        if let Some(j) = found {
            proof {
                lemma_last_index(strs(pn@), cur@[i as int]@.name);
            }
            if prev[j].db_type() != cur[i].db_type() {
                let ghost before = strs(r@);
                r.push(cur[i].name().clone());
                assert(strs(r@) =~= before.push(cur@[i as int]@.name));
            } else {
                assert(pm[j as int] == cm[i as int]);
            }
        }
    }
    assert(cm.take(cur@.len() as int) =~= cm);
    r
}

/// The column changes between two versions of a table.
fn compare_tables(prev: &Table, cur: &Table) -> (r: TableChange)
    ensures
        r@ == table_change(prev@, cur@),
{
    let pn = column_names(prev.columns());
    let cn = column_names(cur.columns());
    TableChange {
        name: cur.name().clone(),
        columns_added: added(&pn, &cn),
        columns_removed: added(&cn, &pn),
        columns_changed: changed_columns(prev.columns(), cur.columns()),
    }
}

impl Schema {
    /// The change-set from `previous` to this schema: tables and composites
    /// added, removed or changed, compared by name.
    pub fn diff(&self, previous: &Schema) -> (r: SchemaDiff)
        ensures
            r@ == diff_spec(previous@, self@),
    {
        let pt = table_names(previous.tables());
        let ct = table_names(self.tables());
        let pc = composite_names(previous.composites());
        let cc = composite_names(self.composites());

        let ptm = previous.tables();
        let ctm = self.tables();
        let ghost pm = previous@.tables;
        let ghost cm = self@.tables;
        let mut tables_changed: Vec<TableChange> = Vec::new();
        assert(tables_changed@.map_values(|c: TableChange| c@) =~= Seq::<TableChangeModel>::empty());
        for i in 0..ctm.len()
            invariant
                pm == previous@.tables,
                cm == self@.tables,
                tables_model(ptm@) == pm,
                tables_model(ctm@) == cm,
                strs(pt@) == pm.map_values(|t| table_name(t)),
                tables_changed@.map_values(|c: TableChange| c@) == changed_tables(pm, cm.take(i as int)),
        {
            proof {
                assert(cm.take(i + 1).drop_last() =~= cm.take(i as int));
                assert(cm.take(i + 1).last() == ctm@[i as int]@);
            }
            let found = find_last(&pt, ctm[i].name());
            if let Some(j) = found {
                proof {
                    lemma_last_index(strs(pt@), ctm@[i as int]@.name);
                    assert(pm[j as int] == ptm@[j as int]@);
                }
                let change = compare_tables(&ptm[j], &ctm[i]);
                if change.columns_added.len() > 0 || change.columns_removed.len() > 0
                    || change.columns_changed.len() > 0 {
                    let ghost before = tables_changed@.map_values(|c: TableChange| c@);
                    tables_changed.push(change);
                    assert(tables_changed@.map_values(|c: TableChange| c@) =~= before.push(
                        table_change(pm[j as int], cm[i as int]),
                    ));
                }
            }
        }
        assert(cm.take(ctm@.len() as int) =~= cm);

        let pcm = previous.composites();
        let ccm = self.composites();
        let ghost pk = previous@.composites;
        let ghost ck = self@.composites;
        let mut composites_changed: Vec<String> = Vec::new();
        assert(strs(composites_changed@) =~= Seq::<Seq<char>>::empty());
        for i in 0..ccm.len()
            invariant
                pk == previous@.composites,
                ck == self@.composites,
                composites_model(pcm@) == pk,
                composites_model(ccm@) == ck,
                strs(pc@) == pk.map_values(|c| composite_name(c)),
                strs(composites_changed@) == changed_names(pk, ck.take(i as int), |c| composite_name(c)),
        {
            proof {
                assert(ck.take(i + 1).drop_last() =~= ck.take(i as int));
                assert(ck.take(i + 1).last() == ccm@[i as int]@);
            }
            let found = find_last(&pc, &ccm[i].name);
            if let Some(j) = found {
                proof {
                    lemma_last_index(strs(pc@), ccm@[i as int]@.name);
                    assert(pk[j as int] == pcm@[j as int]@);
                }
                if !pcm[j].same_as(&ccm[i]) {
                    let ghost before = strs(composites_changed@);
                    composites_changed.push(ccm[i].name.clone());
                    assert(strs(composites_changed@) =~= before.push(ck[i as int].name));
                }
            }
        }
        assert(ck.take(ccm@.len() as int) =~= ck);

        SchemaDiff {
            tables_added: added(&pt, &ct),
            tables_removed: added(&ct, &pt),
            tables_changed,
            composites_added: added(&pc, &cc),
            composites_removed: added(&cc, &pc),
            composites_changed,
        }
    }
}

/// No name occurs twice.
pub open spec fn names_unique(names: Seq<Seq<char>>) -> bool {
    forall|i: int, j: int| 0 <= i < j < names.len() ==> names[i] != names[j]
}

/// Tables, composites, and the columns of each table have distinct names.
pub open spec fn schema_names_unique(s: SchemaModel) -> bool {
    &&& names_unique(s.tables.map_values(|t| table_name(t)))
    &&& names_unique(s.composites.map_values(|c| composite_name(c)))
    &&& forall|k: int| 0 <= k < s.tables.len() ==> #[trigger] column_names_unique(s.tables[k])
}

/// The columns of a table have distinct names.
pub open spec fn column_names_unique(t: TableModel) -> bool {
    names_unique(t.columns.map_values(|c| column_name(c)))
}

proof fn lemma_added_none(prev: Seq<Seq<char>>, cur: Seq<Seq<char>>)
    requires
        forall|k: int| 0 <= k < cur.len() ==> prev.contains(#[trigger] cur[k]),
    ensures
        added_names(prev, cur) == Seq::<Seq<char>>::empty(),
    decreases cur.len(),
{
    if cur.len() > 0 {
        assert(prev.contains(cur[cur.len() - 1]));
        assert forall|k: int| 0 <= k < cur.drop_last().len() implies prev.contains(#[trigger] cur.drop_last()[k]) by {
            assert(prev.contains(cur[k]));
        }
        lemma_added_none(prev, cur.drop_last());
    }
}

proof fn lemma_added_self(names: Seq<Seq<char>>)
    ensures
        added_names(names, names) == Seq::<Seq<char>>::empty(),
{
    assert forall|k: int| 0 <= k < names.len() implies names.contains(#[trigger] names[k]) by {}
    lemma_added_none(names, names);
}

/// The item of `prev` that `last_index` finds for `x`'s name, if any, equals `x`.
pub open spec fn unchanged_in<A>(prev: Seq<A>, x: A, name_of: spec_fn(A) -> Seq<char>) -> bool {
    match last_index(prev.map_values(name_of), name_of(x)) {
        Some(j) => prev[j] == x,
        None => true,
    }
}

proof fn lemma_changed_none<A>(prev: Seq<A>, cur: Seq<A>, name_of: spec_fn(A) -> Seq<char>)
    requires
        forall|k: int| 0 <= k < cur.len() ==> unchanged_in(prev, #[trigger] cur[k], name_of),
    ensures
        changed_names(prev, cur, name_of) == Seq::<Seq<char>>::empty(),
    decreases cur.len(),
{
    if cur.len() > 0 {
        assert(unchanged_in(prev, cur[cur.len() - 1], name_of));
        assert forall|k: int| 0 <= k < cur.drop_last().len() implies unchanged_in(prev, #[trigger] cur.drop_last()[k], name_of) by {
            assert(unchanged_in(prev, cur[k], name_of));
        }
        lemma_changed_none(prev, cur.drop_last(), name_of);
    }
}

proof fn lemma_changed_self<A>(items: Seq<A>, name_of: spec_fn(A) -> Seq<char>)
    requires
        names_unique(items.map_values(name_of)),
    ensures
        changed_names(items, items, name_of) == Seq::<Seq<char>>::empty(),
{
    let ns = items.map_values(name_of);
    assert forall|k: int| 0 <= k < items.len() implies unchanged_in(items, #[trigger] items[k], name_of) by {
        lemma_last_index(ns, name_of(items[k]));
        assert(ns[k] == name_of(items[k]));
        assert(ns.contains(name_of(items[k])));
        let j = last_index(ns, name_of(items[k]))->Some_0;
        assert(ns[j] == ns[k]);
    }
    lemma_changed_none(items, items, name_of);
}

proof fn lemma_changed_tables_none(prev: Seq<TableModel>, cur: Seq<TableModel>)
    requires
        forall|k: int| 0 <= k < cur.len() ==> (match last_index(prev.map_values(|t| table_name(t)), #[trigger] cur[k].name) {
            Some(j) => is_empty_change(table_change(prev[j], cur[k])),
            None => true,
        }),
    ensures
        changed_tables(prev, cur) == Seq::<TableChangeModel>::empty(),
    decreases cur.len(),
{
    if cur.len() > 0 {
        let last = cur.len() - 1;
        assert(cur[last].name == cur.last().name);
        assert forall|k: int| 0 <= k < cur.drop_last().len() implies (match last_index(
            prev.map_values(|t| table_name(t)),
            #[trigger] cur.drop_last()[k].name,
        ) {
            Some(j) => is_empty_change(table_change(prev[j], cur.drop_last()[k])),
            None => true,
        }) by {
            assert(cur.drop_last()[k] == cur[k]);
        }
        lemma_changed_tables_none(prev, cur.drop_last());
    }
}

/// Comparing a schema with itself reports no change, provided tables,
/// composites and the columns of each table have distinct names.
pub proof fn lemma_diff_identical(s: SchemaModel)
    requires
        schema_names_unique(s),
    ensures
        is_empty_diff(diff_spec(s, s)),
{
    let tn = s.tables.map_values(|t| table_name(t));
    let cn = s.composites.map_values(|c| composite_name(c));
    lemma_added_self(tn);
    lemma_added_self(cn);
    lemma_changed_self(s.composites, |c| composite_name(c));
    assert forall|k: int| 0 <= k < s.tables.len() implies (match last_index(tn, #[trigger] s.tables[k].name) {
        Some(j) => is_empty_change(table_change(s.tables[j], s.tables[k])),
        None => true,
    }) by {
        lemma_last_index(tn, s.tables[k].name);
        assert(tn[k] == s.tables[k].name);
        assert(tn.contains(s.tables[k].name));
        let j = last_index(tn, s.tables[k].name)->Some_0;
        assert(tn[j] == tn[k]);
        assert(j == k);
        let t = s.tables[k];
        assert(column_names_unique(t));
        lemma_added_self(t.columns.map_values(|c| column_name(c)));
        lemma_changed_self(t.columns, |c| column_name(c));
    }
    lemma_changed_tables_none(s.tables, s.tables);
}

proof fn lemma_changed_from_nothing<A>(cur: Seq<A>, name_of: spec_fn(A) -> Seq<char>)
    ensures
        changed_names(Seq::<A>::empty(), cur, name_of) == Seq::<Seq<char>>::empty(),
    decreases cur.len(),
{
    if cur.len() > 0 {
        lemma_changed_from_nothing(cur.drop_last(), name_of);
        assert(Seq::<A>::empty().map_values(name_of) =~= Seq::<Seq<char>>::empty());
    }
}

/// Comparing a schema of one table against an empty stored schema reports
/// that table as added, and nothing removed or changed.
pub proof fn lemma_diff_from_empty(cur: SchemaModel)
    requires
        cur.tables.len() == 1,
    ensures
        diff_spec(SchemaModel { composites: seq![], tables: seq![] }, cur).tables_added == seq![cur.tables[0].name],
        diff_spec(SchemaModel { composites: seq![], tables: seq![] }, cur).tables_removed.len() == 0,
        diff_spec(SchemaModel { composites: seq![], tables: seq![] }, cur).tables_changed.len() == 0,
        diff_spec(SchemaModel { composites: seq![], tables: seq![] }, cur).composites_removed.len() == 0,
        diff_spec(SchemaModel { composites: seq![], tables: seq![] }, cur).composites_changed.len() == 0,
{
    let prev = SchemaModel { composites: seq![], tables: seq![] };
    let pt = prev.tables.map_values(|t| table_name(t));
    let ct = cur.tables.map_values(|t| table_name(t));
    let pc = prev.composites.map_values(|c| composite_name(c));
    assert(pt =~= Seq::<Seq<char>>::empty());
    assert(pc =~= Seq::<Seq<char>>::empty());
    assert(ct.drop_last() =~= Seq::<Seq<char>>::empty());
    assert(!pt.contains(ct.last()));
    assert(added_names(pt, Seq::<Seq<char>>::empty()) == Seq::<Seq<char>>::empty());
    assert(added_names(pt, ct.drop_last()) == Seq::<Seq<char>>::empty());
    assert(ct.last() == cur.tables[0].name);
    assert(added_names(pt, ct) =~= seq![cur.tables[0].name]);
    assert(cur.tables.drop_last() =~= Seq::<TableModel>::empty());
    assert(changed_tables(prev.tables, cur.tables.drop_last()) =~= Seq::<TableChangeModel>::empty());
    assert(last_index(pt, cur.tables.last().name) is None);
    lemma_changed_from_nothing(cur.composites, |c| composite_name(c));
}

} // verus!
