use platt::db_types::DbType;
use platt::descriptor::{BitString, BitStringFixed, Decimal, ExactString, HasDbType, LenientJson, Varchar};
use platt::models::{BlogPostStatus, User};
use platt::schema::ForeignKey;

fn plain(base: &str) -> DbType {
    DbType { base: base.to_string(), nullable: false, indexed: false, primary_key: false, unique: false }
}

#[test]
fn scalar_types_map_to_fixed_bases() {
    assert_eq!(<bool as HasDbType>::db_type(), plain("BOOLEAN"));
    assert_eq!(<u8 as HasDbType>::db_type(), plain("SMALLINT"));
    assert_eq!(<u16 as HasDbType>::db_type(), plain("SMALLINT"));
    assert_eq!(<u32 as HasDbType>::db_type(), plain("INT"));
    assert_eq!(<u64 as HasDbType>::db_type(), plain("BIGINT"));
    assert_eq!(<i8 as HasDbType>::db_type(), plain("SMALLINT"));
    assert_eq!(<i16 as HasDbType>::db_type(), plain("SMALLINT"));
    assert_eq!(<i32 as HasDbType>::db_type(), plain("INT"));
    assert_eq!(<i64 as HasDbType>::db_type(), plain("BIGINT"));
    assert_eq!(<String as HasDbType>::db_type(), plain("TEXT"));
    assert!(<i32 as HasDbType>::composites().is_empty());
}

#[test]
fn outside_value_types_map_to_fixed_bases() {
    assert_eq!(<chrono::NaiveDate as HasDbType>::db_type(), plain("DATE"));
    assert_eq!(<chrono::NaiveTime as HasDbType>::db_type(), plain("TIME"));
    assert_eq!(<chrono::NaiveDateTime as HasDbType>::db_type(), plain("TIMESTAMP"));
    assert_eq!(<uuid::Uuid as HasDbType>::db_type(), plain("Uuid"));
    assert_eq!(<serde_json::Value as HasDbType>::db_type(), plain("JSONB"));
    assert_eq!(<LenientJson as HasDbType>::db_type(), plain("JSON"));
}

#[test]
fn sized_types_render_their_sizes() {
    assert_eq!(<Varchar<255> as HasDbType>::db_type(), plain("VARCHAR(255)"));
    assert_eq!(<Varchar<0> as HasDbType>::db_type(), plain("VARCHAR(0)"));
    assert_eq!(<ExactString<10> as HasDbType>::db_type(), plain("CHAR(10)"));
    assert_eq!(<Decimal<10, 2> as HasDbType>::db_type(), plain("DECIMAL(10, 2)"));
    assert_eq!(<Decimal<65535, 9> as HasDbType>::db_type(), plain("DECIMAL(65535, 9)"));
    assert_eq!(<BitStringFixed<8> as HasDbType>::db_type(), plain("BIT(8)"));
    assert_eq!(<BitString as HasDbType>::db_type(), plain("BIT VARYING"));
}

#[test]
fn optional_makes_nullable_and_keeps_the_rest() {
    let t = <Option<u32> as HasDbType>::db_type();
    assert_eq!(t.base, "INT");
    assert!(t.nullable);
    assert!(!t.indexed && !t.primary_key && !t.unique);
    assert_eq!(<Option<BlogPostStatus> as HasDbType>::composites(), <BlogPostStatus as HasDbType>::composites());
}

#[test]
fn arrays_rewrite_the_base_only() {
    assert_eq!(<Vec<i64> as HasDbType>::db_type(), plain("BIGINT[]"));
    assert_eq!(<[u8; 4] as HasDbType>::db_type(), plain("SMALLINT[4]"));
    let t = <Vec<Option<String>> as HasDbType>::db_type();
    assert_eq!(t.base, "TEXT[]");
    assert!(t.nullable);
    let t = <Option<[Vec<u32>; 12]> as HasDbType>::db_type();
    assert_eq!(t.base, "INT[][12]");
    assert!(t.nullable);
    assert_eq!(<Vec<BlogPostStatus> as HasDbType>::composites(), <BlogPostStatus as HasDbType>::composites());
    assert_eq!(<[BlogPostStatus; 3] as HasDbType>::composites(), <BlogPostStatus as HasDbType>::composites());
    assert_eq!(
        <Vec<BlogPostStatus> as HasDbType>::db_type(),
        plain("BlogPostStatus__Composite[]")
    );
}

#[test]
fn foreign_key_references_the_model_table() {
    assert_eq!(<ForeignKey<User> as HasDbType>::db_type(), plain("UUID REFERENCES User(\"id\")"));
    assert!(<ForeignKey<User> as HasDbType>::composites().is_empty());
}
