//! Tables, columns and the schema that accumulates them, with model
//! registration.
use vstd::prelude::*;

use crate::composite::{fields_model, merge_field_composites, FieldDesc, FieldModel};
use crate::db_types::{
    composites_model, copy_composites, merge_composites, merge_into, no_duplicates, lemma_merge_composites, Composite,
    CompositeModel, DbType, DbTypeModel,
};
use crate::descriptor::HasDbType;

verus! {

/// The column type of the injected primary key.
pub open spec fn primary_key_spec() -> DbTypeModel {
    DbTypeModel { base: "UUID"@, nullable: false, indexed: false, primary_key: true, unique: true }
}

/// The column type of the injected `id` column: `UUID`, primary key, unique, not null.
pub fn primary_key() -> (r: DbType)
    ensures
        r@ == primary_key_spec(),
{
    DbType { base: String::from_str("UUID"), nullable: false, indexed: false, primary_key: true, unique: true }
}

/// Mathematical value of a [`Column`].
pub struct ColumnModel {
    pub name: Seq<char>,
    pub db_type: DbTypeModel,
}

/// A named column.
#[derive(Debug)]
pub struct Column {
    name: String,
    db_type: DbType,
}

impl View for Column {
    type V = ColumnModel;

    closed spec fn view(&self) -> ColumnModel {
        ColumnModel { name: self.name@, db_type: self.db_type@ }
    }
}

impl Column {
    pub fn new(name: String, db_type: DbType) -> (r: Column)
        ensures
            r@ == (ColumnModel { name: name@, db_type: db_type@ }),
    {
        Column { name, db_type }
    }

    pub fn name(&self) -> (r: &String)
        ensures
            r@ == self@.name,
    {
        &self.name
    }

    pub fn db_type(&self) -> (r: &DbType)
        ensures
            r@ == self@.db_type,
    {
        &self.db_type
    }
}

/// Mathematical value of a [`Table`].
pub struct TableModel {
    pub name: Seq<char>,
    pub columns: Seq<ColumnModel>,
}

/// A named table with ordered columns.
#[derive(Debug)]
pub struct Table {
    name: String,
    columns: Vec<Column>,
}

impl View for Table {
    type V = TableModel;

    closed spec fn view(&self) -> TableModel {
        TableModel { name: self.name@, columns: self.columns@.map_values(|c: Column| c@) }
    }
}

impl Table {
    pub fn new(name: String, columns: Vec<Column>) -> (r: Table)
        ensures
            r@.name == name@,
            r@.columns == columns@.map_values(|c: Column| c@),
    {
        Table { name, columns }
    }

    pub fn name(&self) -> (r: &String)
        ensures
            r@ == self@.name,
    {
        &self.name
    }

    pub fn columns(&self) -> (r: &Vec<Column>)
        ensures
            r@.map_values(|c: Column| c@) == self@.columns,
    {
        &self.columns
    }
}

/// The models of a sequence of tables.
pub open spec fn tables_model(ts: Seq<Table>) -> Seq<TableModel> {
    ts.map_values(|t: Table| t@)
}

/// Mathematical value of a [`Schema`].
pub struct SchemaModel {
    pub composites: Seq<CompositeModel>,
    pub tables: Seq<TableModel>,
}

/// Composite types and tables, each in registration order.
#[derive(Debug)]
pub struct Schema {
    composites: Vec<Composite>,
    tables: Vec<Table>,
}

impl View for Schema {
    type V = SchemaModel;

    closed spec fn view(&self) -> SchemaModel {
        SchemaModel { composites: composites_model(self.composites@), tables: tables_model(self.tables@) }
    }
}

impl Schema {
    /// The schema is well formed: no composite occurs twice.
    pub open spec fn wf(&self) -> bool {
        no_duplicates(self@.composites)
    }

    /// A schema with no composites and no tables.
    pub fn empty() -> (r: Schema)
        ensures
            r@.composites == Seq::<CompositeModel>::empty(),
            r@.tables == Seq::<TableModel>::empty(),
            r.wf(),
    {
        let r = Schema { composites: Vec::new(), tables: Vec::new() };
        assert(r@.composites =~= Seq::<CompositeModel>::empty());
        assert(r@.tables =~= Seq::<TableModel>::empty());
        r
    }

    pub fn composites(&self) -> (r: &Vec<Composite>)
        ensures
            composites_model(r@) == self@.composites,
    {
        &self.composites
    }

    pub fn tables(&self) -> (r: &Vec<Table>)
        ensures
            tables_model(r@) == self@.tables,
    {
        &self.tables
    }

    /// Merges `composites` in, skipping any already present.
    pub fn add_composites(&mut self, composites: Vec<Composite>)
        ensures
            final(self)@.composites == merge_composites(old(self)@.composites, composites_model(composites@)),
            final(self)@.tables == old(self)@.tables,
            old(self).wf() ==> final(self).wf(),
    {
        merge_into(&mut self.composites, &composites);
        proof {
            lemma_merge_composites(old(self)@.composites, composites_model(composites@));
        }
    }

    /// Appends `tables` in order.
    pub fn add_tables(&mut self, tables: Vec<Table>)
        ensures
            final(self)@.composites == old(self)@.composites,
            final(self)@.tables == old(self)@.tables + tables_model(tables@),
            old(self).wf() ==> final(self).wf(),
    {
        let mut tables = tables;
        let ghost added = tables_model(tables@);
        self.tables.append(&mut tables);
        assert(self@.tables =~= old(self)@.tables + added);
    }

    /// Merges `composites` in, then appends `table`.
    pub fn add_table(&mut self, table: Table, composites: Vec<Composite>)
        ensures
            final(self)@.composites == merge_composites(old(self)@.composites, composites_model(composites@)),
            final(self)@.tables == old(self)@.tables.push(table@),
            old(self).wf() ==> final(self).wf(),
    {
        self.add_composites(composites);
        let ghost before = self@.tables;
        self.tables.push(table);
        assert(self@.tables =~= before.push(table@));
    }

    /// Registers a model named `name` with the declared `fields`: checks
    /// them, then merges the composites they need and appends the table
    /// `id`, followed by one column per field.
    pub fn register_model(&mut self, name: &String, fields: Vec<FieldDesc>) -> (r: Result<(), SchemaError>)
        ensures
            registration(old(self)@, name@, fields_model(fields@), r, final(self)@),
            old(self).wf() ==> final(self).wf(),
    {
        let ghost fm = fields_model(fields@);
        let id = String::from_str("id");
        for i in 0..fields.len()
            invariant
                fm == fields_model(fields@),
                id@ == "id"@,
                forall|k: int| 0 <= k < i ==> (#[trigger] fm[k]).name != "id"@,
        {
            if fields[i].name == id {
                assert(fm[i as int].name == "id"@);
                return Err(SchemaError::ReservedColumnName);
            }
        }
        for i in 0..fields.len()
            invariant
                fm == fields_model(fields@),
                !has_reserved_field(fm),
                forall|a: int, b: int| 0 <= a < b < fm.len() && a < i ==> #[trigger] fm[a].name != #[trigger] fm[b].name,
        {
            for j in i + 1..fields.len()
                invariant
                    fm == fields_model(fields@),
                    i < fields.len(),
                    !has_reserved_field(fm),
                    forall|a: int, b: int| 0 <= a < b < fm.len() && a < i ==> #[trigger] fm[a].name != #[trigger] fm[b].name,
                    forall|b: int| i < b < j ==> fm[i as int].name != #[trigger] fm[b].name,
            {
                if fields[i].name == fields[j].name {
                    assert(fm[i as int].name == fm[j as int].name);
                    return Err(SchemaError::DuplicateColumn);
                }
            }
        }
        assert(!has_duplicate_field(fm));
        for i in 0..self.tables.len()
            invariant
                fm == fields_model(fields@),
                !has_reserved_field(fm),
                !has_duplicate_field(fm),
                forall|k: int| 0 <= k < i ==> (#[trigger] self@.tables[k]).name != name@,
        {
            if self.tables[i].name == *name {
                assert(self@.tables[i as int].name == name@);
                return Err(SchemaError::DuplicateTable);
            }
        }
        assert(!has_table(self@.tables, name@));
        let mut merged = copy_composites(&self.composites);
        for j in 0..fields.len()
            invariant
                fm == fields_model(fields@),
                composites_model(merged@) == merge_field_composites(self@.composites, fm.take(j as int)),
        {
            proof {
                assert(fm.take(j + 1).drop_last() =~= fm.take(j as int));
            }
            merge_into(&mut merged, &fields[j].composites);
        }
        assert(fm.take(fields@.len() as int) =~= fm);
        let ghost mm = composites_model(merged@);
        for i in 0..merged.len()
            invariant
                mm == composites_model(merged@),
                mm == merged_composites(self@, fm),
                fm == fields_model(fields@),
                self@ == old(self)@,
                !has_reserved_field(fm),
                !has_duplicate_field(fm),
                !has_table(self@.tables, name@),
                forall|a: int, b: int| 0 <= a < b < mm.len() && a < i && #[trigger] mm[a].name == #[trigger] mm[b].name ==> mm[a] == mm[b],
        {
            for j in i + 1..merged.len()
                invariant
                    mm == composites_model(merged@),
                    mm == merged_composites(self@, fm),
                    fm == fields_model(fields@),
                fm == fields_model(fields@),
                    self@ == old(self)@,
                self@ == old(self)@,
                    !has_reserved_field(fm),
                    !has_duplicate_field(fm),
                    !has_table(self@.tables, name@),
                    i < merged.len(),
                    forall|a: int, b: int| 0 <= a < b < mm.len() && a < i && #[trigger] mm[a].name == #[trigger] mm[b].name ==> mm[a] == mm[b],
                    forall|b: int| i < b < j && mm[i as int].name == #[trigger] mm[b].name ==> mm[i as int] == mm[b],
            {
                if merged[i].name == merged[j].name && !merged[i].same_as(&merged[j]) {
                    assert(mm[i as int].name == mm[j as int].name && mm[i as int] != mm[j as int]);
                    return Err(SchemaError::ConflictingComposite);
                }
            }
        }
        let mut columns: Vec<Column> = Vec::new();
        columns.push(Column::new(id, primary_key()));
        for i in 0..fields.len()
            invariant
                fm == fields_model(fields@),
                columns@.len() == i + 1,
                columns@[0]@ == id_column(),
                forall|k: int| 0 <= k < i ==> (#[trigger] columns@[k + 1])@ == (ColumnModel { name: fm[k].name, db_type: fm[k].db_type }),
        {
            columns.push(Column::new(fields[i].name.clone(), fields[i].db_type.copy()));
        }
        let table = Table { name: name.clone(), columns };
        assert(table@ == model_table(name@, fm)) by {
            let want = model_table(name@, fm).columns;
            assert forall|k: int| 0 <= k < want.len() implies table@.columns[k] == want[k] by {
                if k > 0 {
                    assert(columns@[(k - 1) + 1]@ == (ColumnModel { name: fm[k - 1].name, db_type: fm[k - 1].db_type }));
                }
            }
            assert(table@.columns =~= want);
        }
        proof {
            lemma_merge_field_composites(self@.composites, fm);
        }
        self.composites = merged;
        let ghost before = self@.tables;
        self.tables.push(table);
        assert(self@.tables =~= before.push(model_table(name@, fm)));
        Ok(())
    }
}

/// Merging the composites of fields keeps a set free of duplicates.
pub proof fn lemma_merge_field_composites(set: Seq<CompositeModel>, fields: Seq<FieldModel>)
    ensures
        no_duplicates(set) ==> no_duplicates(merge_field_composites(set, fields)),
        forall|c: CompositeModel| set.contains(c) ==> #[trigger] merge_field_composites(set, fields).contains(c),
        forall|k: int, c: CompositeModel|
            0 <= k < fields.len() && #[trigger] fields[k].composites.contains(c)
                ==> #[trigger] merge_field_composites(set, fields).contains(c),
    decreases fields.len(),
{
    if fields.len() > 0 {
        lemma_merge_field_composites(set, fields.drop_last());
        lemma_merge_composites(merge_field_composites(set, fields.drop_last()), fields.last().composites);
        assert forall|k: int, c: CompositeModel|
            0 <= k < fields.len() && #[trigger] fields[k].composites.contains(c)
                implies #[trigger] merge_field_composites(set, fields).contains(c) by {
            if k < fields.len() - 1 {
                assert(fields.drop_last()[k] == fields[k]);
            }
        }
    }
}

/// Why a model could not be registered.
#[derive(Debug, Clone, Copy, PartialEq, Eq, Structural)]
pub enum SchemaError {
    /// A declared field is named `id`, which the injected primary key uses.
    ReservedColumnName,
    /// Two declared fields share a name.
    DuplicateColumn,
    /// A table of the same name is already registered.
    DuplicateTable,
    /// Two different composite types would share a name.
    ConflictingComposite,
}

impl SchemaError {
    /// A description of the error.
    pub fn message(&self) -> (r: String)
        ensures
            r@.len() > 0,
    {
        proof {
            reveal_strlit("a model field may not be named \"id\": that column is injected as the primary key");
            reveal_strlit("two fields of the model share a name");
            reveal_strlit("a table of that name is already registered");
            reveal_strlit("two different composite types share a name");
        }
        match self {
            SchemaError::ReservedColumnName => String::from_str(
                "a model field may not be named \"id\": that column is injected as the primary key",
            ),
            SchemaError::DuplicateColumn => String::from_str("two fields of the model share a name"),
            SchemaError::DuplicateTable => String::from_str("a table of that name is already registered"),
            SchemaError::ConflictingComposite => String::from_str("two different composite types share a name"),
        }
    }
}

/// The injected leading column.
pub open spec fn id_column() -> ColumnModel {
    ColumnModel { name: "id"@, db_type: primary_key_spec() }
}

/// The table generated for a model: `id`, then one column per field.
pub open spec fn model_table(name: Seq<char>, fields: Seq<FieldModel>) -> TableModel {
    TableModel {
        name,
        columns: seq![id_column()] + fields.map_values(|f: FieldModel| ColumnModel { name: f.name, db_type: f.db_type }),
    }
}

/// Some field is named `id`.
pub open spec fn has_reserved_field(fields: Seq<FieldModel>) -> bool {
    exists|i: int| 0 <= i < fields.len() && #[trigger] fields[i].name == "id"@
}

/// Two fields share a name.
pub open spec fn has_duplicate_field(fields: Seq<FieldModel>) -> bool {
    exists|i: int, j: int| 0 <= i < j < fields.len() && #[trigger] fields[i].name == #[trigger] fields[j].name
}

/// Some table is named `name`.
pub open spec fn has_table(tables: Seq<TableModel>, name: Seq<char>) -> bool {
    exists|i: int| 0 <= i < tables.len() && #[trigger] tables[i].name == name
}

/// Two different composites share a name.
pub open spec fn has_name_conflict(cs: Seq<CompositeModel>) -> bool {
    exists|i: int, j: int|
        0 <= i < j < cs.len() && #[trigger] cs[i].name == #[trigger] cs[j].name && cs[i] != cs[j]
}

/// The composites of a schema after registering a model with these fields.
pub open spec fn merged_composites(s: SchemaModel, fields: Seq<FieldModel>) -> Seq<CompositeModel> {
    merge_field_composites(s.composites, fields)
}

/// The error, if any, that registering a model gives: checks in a fixed order.
pub open spec fn registration_error(s: SchemaModel, name: Seq<char>, fields: Seq<FieldModel>) -> Option<SchemaError> {
    if has_reserved_field(fields) {
        Some(SchemaError::ReservedColumnName)
    } else if has_duplicate_field(fields) {
        Some(SchemaError::DuplicateColumn)
    } else if has_table(s.tables, name) {
        Some(SchemaError::DuplicateTable)
    } else if has_name_conflict(merged_composites(s, fields)) {
        Some(SchemaError::ConflictingComposite)
    } else {
        None
    }
}

/// The schema after a successful registration of a model into `before`.
pub open spec fn registered_schema(before: SchemaModel, name: Seq<char>, fields: Seq<FieldModel>) -> SchemaModel {
    SchemaModel {
        composites: merged_composites(before, fields),
        tables: before.tables.push(model_table(name, fields)),
    }
}

/// Registering a model into `before` succeeds and yields `after`.
pub open spec fn registered(before: SchemaModel, name: Seq<char>, fields: Seq<FieldModel>, after: SchemaModel) -> bool {
    registration_error(before, name, fields) is None && after == registered_schema(before, name, fields)
}

/// What registering a model does: on success the composites its fields
/// need are merged in and its table is appended; on failure nothing changes.
pub open spec fn registration(
    before: SchemaModel,
    name: Seq<char>,
    fields: Seq<FieldModel>,
    r: Result<(), SchemaError>,
    after: SchemaModel,
) -> bool {
    match registration_error(before, name, fields) {
        Some(e) => r == Err::<(), SchemaError>(e) && after == before,
        None => r is Ok && registered(before, name, fields, after),
    }
}

/// A model type that owns one table.
pub trait DbModel {
    spec fn table_name_spec() -> Seq<char>;

    /// The declared fields, in declaration order.
    spec fn fields_spec() -> Seq<FieldModel>;

    fn table_name() -> (r: String)
        ensures
            r@ == Self::table_name_spec();

    /// Registers this model's table and the composites its fields need.
    fn activate(schema: &mut Schema) -> (r: Result<(), SchemaError>)
        ensures
            registration(old(schema)@, Self::table_name_spec(), Self::fields_spec(), r, final(schema)@);
}

/// A table type that installs itself into a schema.
pub trait DbTable {
    fn activate(schema: &mut Schema);
}

/// A reference to the `id` of a row of `Other`'s table.
pub struct ForeignKey<Other: DbModel>(pub core::marker::PhantomData<Other>);

impl<Other: DbModel> HasDbType for ForeignKey<Other> {
    open spec fn db_type_spec() -> DbTypeModel {
        DbTypeModel {
            base: "UUID REFERENCES "@ + Other::table_name_spec() + "(\"id\")"@,
            nullable: false,
            indexed: false,
            primary_key: false,
            unique: false,
        }
    }

    open spec fn composites_spec() -> Seq<CompositeModel> {
        Seq::empty()
    }

    fn composites() -> (r: Vec<Composite>) {
        let r: Vec<Composite> = Vec::new();
        assert(composites_model(r@) =~= Seq::<CompositeModel>::empty());
        r
    }

    fn db_type() -> (r: DbType) {
        let mut base = String::from_str("UUID REFERENCES ");
        let table = Other::table_name();
        base.append(table.as_str());
        base.append("(\"id\")");
        DbType { base, nullable: false, indexed: false, primary_key: false, unique: false }
    }
}

/// A many-to-many link to `Other`; it contributes no column.
pub struct ManyToManyRelationship<Other: DbModel>(pub core::marker::PhantomData<Other>);

/// Every table a registration generates starts with the column `id` of
/// base `UUID`, primary key, unique and not null.
pub proof fn lemma_generated_table_starts_with_id(
    before: SchemaModel,
    name: Seq<char>,
    fields: Seq<FieldModel>,
    after: SchemaModel,
)
    requires
        registered(before, name, fields, after),
    ensures
        after.tables.last().columns.len() >= 1,
        after.tables.last().columns[0].name == "id"@,
        after.tables.last().columns[0].db_type.base == "UUID"@,
        after.tables.last().columns[0].db_type.primary_key,
        after.tables.last().columns[0].db_type.unique,
        !after.tables.last().columns[0].db_type.nullable,
{
}

/// A composite needed by fields of two models registered one after the
/// other ends up in the schema exactly once, and no other composite there
/// shares its name.
pub proof fn lemma_shared_composite_registered_once(
    start: SchemaModel,
    first: Seq<char>,
    first_fields: Seq<FieldModel>,
    mid: SchemaModel,
    second: Seq<char>,
    second_fields: Seq<FieldModel>,
    after: SchemaModel,
    c: CompositeModel,
    k1: int,
    k2: int,
)
    requires
        no_duplicates(start.composites),
        registered(start, first, first_fields, mid),
        registered(mid, second, second_fields, after),
        0 <= k1 < first_fields.len(),
        first_fields[k1].composites.contains(c),
        0 <= k2 < second_fields.len(),
        second_fields[k2].composites.contains(c),
    ensures
        after.composites.contains(c),
        forall|i: int, j: int|
            0 <= i < after.composites.len() && 0 <= j < after.composites.len()
                && #[trigger] after.composites[i].name == c.name && #[trigger] after.composites[j].name == c.name
                ==> i == j,
{
    lemma_merge_field_composites(start.composites, first_fields);
    lemma_merge_field_composites(mid.composites, second_fields);
    let m = after.composites;
    assert forall|i: int, j: int|
        0 <= i < m.len() && 0 <= j < m.len() && #[trigger] m[i].name == c.name && #[trigger] m[j].name == c.name
            implies i == j by {
        if i < j {
            assert(!has_name_conflict(m));
            assert(m[i] == m[j]);
        } else if j < i {
            assert(!has_name_conflict(m));
            assert(m[j] == m[i]);
        }
    }
}

} // verus!
