use platt::composite::FieldDesc;
use platt::db_types::{Composite, DbType};
use platt::models::{get_schema, BlogPost, BlogPostStatus, User};
use platt::schema::{primary_key, Column, DbModel, Schema, SchemaError, Table};

fn plain(base: &str) -> DbType {
    DbType { base: base.to_string(), nullable: false, indexed: false, primary_key: false, unique: false }
}

fn model_m() -> Schema {
    let mut schema = Schema::empty();
    let fields = vec![
        FieldDesc::of::<String>("name".to_string()),
        FieldDesc::of::<Option<u32>>("age".to_string()),
    ];
    assert_eq!(schema.register_model(&"M".to_string(), fields), Ok(()));
    schema
}

#[test]
fn model_with_optional_field_renders_exactly() {
    assert_eq!(
        model_m().to_sql(),
        "CREATE TABLE \"M\" (\"id\" UUID NOT NULL PRIMARY KEY UNIQUE, \"name\" TEXT NOT NULL, \"age\" INT);\n"
    );
}

#[test]
fn generated_table_starts_with_id() {
    let schema = model_m();
    let table = &schema.tables()[0];
    assert_eq!(table.name(), "M");
    let id = &table.columns()[0];
    assert_eq!(id.name(), "id");
    assert_eq!(id.db_type().base, "UUID");
    assert!(id.db_type().primary_key && id.db_type().unique && !id.db_type().nullable);
    assert!(!id.db_type().indexed);
    assert_eq!(primary_key(), *id.db_type());
}

#[test]
fn rendering_twice_gives_the_same_text() {
    let schema = get_schema().unwrap();
    assert_eq!(schema.to_sql(), schema.to_sql());
}

#[test]
fn modifiers_come_in_fixed_order() {
    let all = DbType { base: "INT".to_string(), nullable: false, indexed: true, primary_key: true, unique: true };
    assert_eq!(all.db_type_string(), "INT NOT NULL INDEXED PRIMARY KEY UNIQUE");
    let nullable = DbType { nullable: true, ..all };
    assert_eq!(nullable.db_type_string(), "INT INDEXED PRIMARY KEY UNIQUE");
    assert_eq!(nullable.db_type_string_simple(), "INT");
    assert_eq!(plain("TEXT").db_type_string(), "TEXT NOT NULL");
}

#[test]
fn shared_enum_composites_are_registered_once() {
    let mut schema = Schema::empty();
    let a = vec![FieldDesc::of::<BlogPostStatus>("status".to_string())];
    let b = vec![FieldDesc::of::<Option<BlogPostStatus>>("state".to_string())];
    assert_eq!(schema.register_model(&"A".to_string(), a), Ok(()));
    assert_eq!(schema.register_model(&"B".to_string(), b), Ok(()));
    let wrappers = schema.composites().iter().filter(|c| c.name == "BlogPostStatus__Composite").count();
    assert_eq!(wrappers, 1);
    assert_eq!(schema.composites().len(), 3);
    assert_eq!(schema.tables().len(), 2);
}

#[test]
fn example_schema_renders_composites_then_tables() {
    let schema = get_schema().unwrap();
    let expected = "CREATE TYPE \"BlogPostStatus_Published\" AS (\"at\" SMALLINT);\n\
CREATE TYPE \"BlogPostStatus_Removed\" AS (\"at\" SMALLINT, \"reason\" TEXT);\n\
CREATE TYPE \"BlogPostStatus__Composite\" AS (\"BlogPostStatus\" INT, \"Published\" BlogPostStatus_Published, \"Removed\" BlogPostStatus_Removed);\n\
CREATE TABLE \"User\" (\"id\" UUID NOT NULL PRIMARY KEY UNIQUE, \"email\" TEXT NOT NULL, \"password\" TEXT NOT NULL);\n\
CREATE TABLE \"BlogPost\" (\"id\" UUID NOT NULL PRIMARY KEY UNIQUE, \"name\" TEXT NOT NULL, \"content\" VARCHAR(255) NOT NULL, \"status\" BlogPostStatus__Composite NOT NULL, \"posted_by\" UUID REFERENCES User(\"id\") NOT NULL);\n";
    assert_eq!(schema.to_sql(), expected);
}

#[test]
fn empty_schema_renders_nothing() {
    assert_eq!(Schema::empty().to_sql(), "");
}

#[test]
fn reserved_field_name_is_rejected() {
    let mut schema = Schema::empty();
    let fields = vec![FieldDesc::of::<u32>("id".to_string())];
    assert_eq!(schema.register_model(&"M".to_string(), fields), Err(SchemaError::ReservedColumnName));
    assert!(schema.tables().is_empty());
    assert!(!SchemaError::ReservedColumnName.message().is_empty());
}

#[test]
fn duplicate_field_name_is_rejected() {
    let mut schema = Schema::empty();
    let fields = vec![FieldDesc::of::<u32>("a".to_string()), FieldDesc::of::<String>("a".to_string())];
    assert_eq!(schema.register_model(&"M".to_string(), fields), Err(SchemaError::DuplicateColumn));
}

#[test]
fn duplicate_table_name_is_rejected() {
    let mut schema = model_m();
    let fields = vec![FieldDesc::of::<u32>("a".to_string())];
    assert_eq!(schema.register_model(&"M".to_string(), fields), Err(SchemaError::DuplicateTable));
    assert_eq!(schema.tables().len(), 1);
}

#[test]
fn conflicting_composite_name_is_rejected() {
    let mut schema = Schema::empty();
    schema.add_composites(vec![Composite {
        name: "BlogPostStatus_Published".to_string(),
        fields: vec![("when".to_string(), plain("DATE"))],
    }]);
    let fields = vec![FieldDesc::of::<BlogPostStatus>("status".to_string())];
    assert_eq!(schema.register_model(&"M".to_string(), fields), Err(SchemaError::ConflictingComposite));
    assert_eq!(schema.composites().len(), 1);
    assert!(schema.tables().is_empty());
}

#[test]
fn activating_models_in_order() {
    let mut schema = Schema::empty();
    assert_eq!(User::activate(&mut schema), Ok(()));
    assert_eq!(BlogPost::activate(&mut schema), Ok(()));
    assert_eq!(User::activate(&mut schema), Err(SchemaError::DuplicateTable));
    assert_eq!(User::table_name(), "User");
    assert_eq!(schema.tables()[1].columns().len(), 5);
}

#[test]
fn raw_accumulation_keeps_order_and_dedups_composites() {
    let mut schema = Schema::empty();
    let c = Composite { name: "C".to_string(), fields: vec![("x".to_string(), plain("INT"))] };
    let c2 = Composite { name: "C".to_string(), fields: vec![("x".to_string(), plain("INT"))] };
    let t = Table::new("T".to_string(), vec![Column::new("id".to_string(), primary_key())]);
    schema.add_table(t, vec![c, c2]);
    schema.add_tables(vec![Table::new("U".to_string(), vec![Column::new("v".to_string(), plain("C"))])]);
    assert_eq!(schema.composites().len(), 1);
    assert_eq!(
        schema.to_sql(),
        "CREATE TYPE \"C\" AS (\"x\" INT);\n\
CREATE TABLE \"T\" (\"id\" UUID NOT NULL PRIMARY KEY UNIQUE);\n\
CREATE TABLE \"U\" (\"v\" C NOT NULL);\n"
    );
}
