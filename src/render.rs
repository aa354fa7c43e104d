//! Rendering a schema as data-definition SQL.
use vstd::prelude::*;

use crate::db_types::{CompositeModel, DbType, DbTypeModel};
use crate::schema::{ColumnModel, Schema, SchemaModel, TableModel};
use crate::text::{concat_all, join_comma};

verus! {

/// The modifiers of a column type, in the fixed order
/// `NOT NULL`, `INDEXED`, `PRIMARY KEY`, `UNIQUE`.
pub open spec fn modifiers(t: DbTypeModel) -> Seq<char> {
    (if !t.nullable { " NOT NULL"@ } else { Seq::empty() })
        + (if t.indexed { " INDEXED"@ } else { Seq::empty() })
        + (if t.primary_key { " PRIMARY KEY"@ } else { Seq::empty() })
        + (if t.unique { " UNIQUE"@ } else { Seq::empty() })
}

/// A column type as it appears in a table: base, then modifiers.
pub open spec fn type_sql(t: DbTypeModel) -> Seq<char> {
    t.base + modifiers(t)
}

/// `"<name>" <type>` for a table column.
pub open spec fn column_sql(c: ColumnModel) -> Seq<char> {
    "\""@ + c.name + "\" "@ + type_sql(c.db_type)
}

/// `"<name>" <base>` for a composite field; flags are not rendered.
pub open spec fn composite_field_sql(f: (Seq<char>, DbTypeModel)) -> Seq<char> {
    "\""@ + f.0 + "\" "@ + f.1.base
}

/// The `CREATE TYPE` statement of a composite.
pub open spec fn composite_sql(c: CompositeModel) -> Seq<char> {
    "CREATE TYPE \""@ + c.name + "\" AS ("@ + join_comma(c.fields.map_values(|f| composite_field_sql(f)))
        + ");\n"@
}

/// The `CREATE TABLE` statement of a table.
pub open spec fn table_sql(t: TableModel) -> Seq<char> {
    "CREATE TABLE \""@ + t.name + "\" ("@ + join_comma(t.columns.map_values(|c| column_sql(c))) + ");\n"@
}

/// All composites in registration order, then all tables in registration order.
pub open spec fn schema_sql(s: SchemaModel) -> Seq<char> {
    concat_all(s.composites.map_values(|c| composite_sql(c))) + concat_all(
        s.tables.map_values(|t| table_sql(t)),
    )
}

proof fn lemma_join_step(parts: Seq<Seq<char>>, i: int)
    requires
        0 <= i < parts.len(),
    ensures
        join_comma(parts.take(i + 1)) == if i == 0 {
            parts[0]
        } else {
            join_comma(parts.take(i)) + ", "@ + parts[i]
        },
{
    assert(parts.take(i + 1).drop_last() =~= parts.take(i));
}

proof fn lemma_concat_step(parts: Seq<Seq<char>>, i: int)
    requires
        0 <= i < parts.len(),
    ensures
        concat_all(parts.take(i + 1)) == concat_all(parts.take(i)) + parts[i],
{
    assert(parts.take(i + 1).drop_last() =~= parts.take(i));
}

impl DbType {
    /// The column type as rendered in a table: base, then modifiers.
    pub fn db_type_string(&self) -> (r: String)
        ensures
            r@ == type_sql(self@),
    {
        let mut base = self.base.clone();
        if !self.nullable {
            base.append(" NOT NULL");
        }
        if self.indexed {
            base.append(" INDEXED");
        }
        if self.primary_key {
            base.append(" PRIMARY KEY");
        }
        if self.unique {
            base.append(" UNIQUE");
        }
        assert(base@ =~= type_sql(self@));
        base
    }

    /// The base fragment alone, as rendered in a composite.
    pub fn db_type_string_simple(&self) -> (r: String)
        ensures
            r@ == self@.base,
    {
        self.base.clone()
    }
}

/// Appends a composite's `CREATE TYPE` statement.
fn push_composite(out: &mut String, c: &crate::db_types::Composite)
    ensures
        final(out)@ == old(out)@ + composite_sql(c@),
{
    let ghost parts = c@.fields.map_values(|f| composite_field_sql(f));
    out.append("CREATE TYPE \"");
    out.append(c.name.as_str());
    out.append("\" AS (");
    let ghost start = out@;
    for i in 0..c.fields.len()
        invariant
            parts == c@.fields.map_values(|f| composite_field_sql(f)),
            out@ == start + join_comma(parts.take(i as int)),
    {
        proof {
            lemma_join_step(parts, i as int);
        }
        if i > 0 {
            out.append(", ");
        }
        out.append("\"");
        out.append(c.fields[i].0.as_str());
        out.append("\" ");
        let ty = c.fields[i].1.db_type_string_simple();
        out.append(ty.as_str());
        proof {
            assert(parts[i as int] == composite_field_sql(crate::db_types::field_model(c.fields@[i as int])));
            if i == 0 {
                assert(parts.take(0) =~= Seq::<Seq<char>>::empty());
            }
            assert(out@ =~= start + join_comma(parts.take(i + 1)));
        }
    }
    assert(parts.take(c.fields@.len() as int) =~= parts);
    out.append(");\n");
    assert(final(out)@ =~= old(out)@ + composite_sql(c@));
}

/// Appends a table's `CREATE TABLE` statement.
fn push_table(out: &mut String, t: &crate::schema::Table)
    ensures
        final(out)@ == old(out)@ + table_sql(t@),
{
    let ghost parts = t@.columns.map_values(|c| column_sql(c));
    out.append("CREATE TABLE \"");
    out.append(t.name().as_str());
    out.append("\" (");
    let ghost start = out@;
    let columns = t.columns();
    for i in 0..columns.len()
        invariant
            parts == t@.columns.map_values(|c| column_sql(c)),
            columns@.map_values(|c: crate::schema::Column| c@) == t@.columns,
            out@ == start + join_comma(parts.take(i as int)),
    {
        proof {
            lemma_join_step(parts, i as int);
        }
        if i > 0 {
            out.append(", ");
        }
        let column = &columns[i];
        out.append("\"");
        out.append(column.name().as_str());
        out.append("\" ");
        let ty = column.db_type().db_type_string();
        out.append(ty.as_str());
        proof {
            assert(t@.columns[i as int] == columns@[i as int]@);
            if i == 0 {
                assert(parts.take(0) =~= Seq::<Seq<char>>::empty());
            }
            assert(out@ =~= start + join_comma(parts.take(i + 1)));
        }
    }
    assert(parts.take(columns@.len() as int) =~= parts);
    out.append(");\n");
    assert(final(out)@ =~= old(out)@ + table_sql(t@));
}

impl Schema {
    /// The schema as SQL: one `CREATE TYPE` per composite, then one
    /// `CREATE TABLE` per table, each in registration order and each ending
    /// with `;` and a newline.
    pub fn to_sql(&self) -> (r: String)
        ensures
            r@ == schema_sql(self@),
    {
        let mut sql = String::new();
        let composites = self.composites();
        let ghost cparts = self@.composites.map_values(|c| composite_sql(c));
        for i in 0..composites.len()
            invariant
                cparts == self@.composites.map_values(|c| composite_sql(c)),
                crate::db_types::composites_model(composites@) == self@.composites,
                sql@ == concat_all(cparts.take(i as int)),
        {
            proof {
                lemma_concat_step(cparts, i as int);
                assert(self@.composites[i as int] == composites@[i as int]@);
            }
            push_composite(&mut sql, &composites[i]);
        }
        assert(cparts.take(composites@.len() as int) =~= cparts);
        let ghost head = sql@;
        let tables = self.tables();
        let ghost tparts = self@.tables.map_values(|t| table_sql(t));
        for i in 0..tables.len()
            invariant
                tparts == self@.tables.map_values(|t| table_sql(t)),
                crate::schema::tables_model(tables@) == self@.tables,
                sql@ == head + concat_all(tparts.take(i as int)),
        {
            proof {
                lemma_concat_step(tparts, i as int);
                assert(self@.tables[i as int] == tables@[i as int]@);
            }
            push_table(&mut sql, &tables[i]);
            assert(sql@ =~= head + concat_all(tparts.take(i + 1)));
        }
        assert(tparts.take(tables@.len() as int) =~= tparts);
        assert(cparts.take(0) =~= Seq::<Seq<char>>::empty());
        sql
    }
}

/// Rendering depends on the schema alone: two renderings of equal schemas
/// are the same text.
pub proof fn lemma_render_deterministic(a: SchemaModel, b: SchemaModel)
    requires
        a == b,
    ensures
        schema_sql(a) == schema_sql(b),
{
}

/// A column type with every flag set renders its modifiers in the order
/// `NOT NULL`, `INDEXED`, `PRIMARY KEY`, `UNIQUE`.
pub proof fn lemma_modifier_order(t: DbTypeModel)
    requires
        !t.nullable,
        t.indexed,
        t.primary_key,
        t.unique,
    ensures
        type_sql(t) == t.base + " NOT NULL INDEXED PRIMARY KEY UNIQUE"@,
{
    reveal_strlit(" NOT NULL");
    reveal_strlit(" INDEXED");
    reveal_strlit(" PRIMARY KEY");
    reveal_strlit(" UNIQUE");
    reveal_strlit(" NOT NULL INDEXED PRIMARY KEY UNIQUE");
    assert(modifiers(t) =~= " NOT NULL INDEXED PRIMARY KEY UNIQUE"@);
}

} // verus!
