use platt::composite::{enum_composites, enum_db_type, FieldDesc, VariantDesc};
use platt::db_types::{Composite, DbType};
use platt::descriptor::HasDbType;
use platt::models::BlogPostStatus;
use platt::schema::Schema;

fn plain(base: &str) -> DbType {
    DbType { base: base.to_string(), nullable: false, indexed: false, primary_key: false, unique: false }
}

fn status_variants() -> Vec<VariantDesc> {
    vec![
        VariantDesc { name: "Draft".to_string(), fields: vec![] },
        VariantDesc { name: "Published".to_string(), fields: vec![FieldDesc::of::<u16>("at".to_string())] },
        VariantDesc { name: "Removed".to_string(), fields: vec![] },
    ]
}

#[test]
fn one_data_variant_gives_variant_and_wrapper_composites() {
    let cs = enum_composites(&"Type".to_string(), &status_variants());
    assert_eq!(
        cs,
        vec![
            Composite { name: "Type_Published".to_string(), fields: vec![("at".to_string(), plain("SMALLINT"))] },
            Composite {
                name: "Type__Composite".to_string(),
                fields: vec![
                    ("Type".to_string(), plain("INT")),
                    ("Published".to_string(), plain("Type_Published")),
                ],
            },
        ]
    );
    assert_eq!(enum_db_type(&"Type".to_string()), plain("Type__Composite"));
}

#[test]
fn enum_composites_render_as_types() {
    let mut schema = Schema::empty();
    schema.add_composites(enum_composites(&"Type".to_string(), &status_variants()));
    assert_eq!(
        schema.to_sql(),
        "CREATE TYPE \"Type_Published\" AS (\"at\" SMALLINT);\n\
         CREATE TYPE \"Type__Composite\" AS (\"Type\" INT, \"Published\" Type_Published);\n"
    );
}

#[test]
fn enum_without_data_has_only_the_wrapper() {
    let variants = vec![
        VariantDesc { name: "On".to_string(), fields: vec![] },
        VariantDesc { name: "Off".to_string(), fields: vec![] },
    ];
    let cs = enum_composites(&"Switch".to_string(), &variants);
    assert_eq!(cs.len(), 1);
    assert_eq!(cs[0].name, "Switch__Composite");
    assert_eq!(cs[0].fields, vec![("Switch".to_string(), plain("INT"))]);
}

#[test]
fn nested_enum_composites_come_first_once() {
    let variants = vec![
        VariantDesc {
            name: "A".to_string(),
            fields: vec![FieldDesc::of::<BlogPostStatus>("s".to_string())],
        },
        VariantDesc {
            name: "B".to_string(),
            fields: vec![FieldDesc::of::<Option<BlogPostStatus>>("t".to_string())],
        },
    ];
    let cs = enum_composites(&"Outer".to_string(), &variants);
    let names: Vec<&str> = cs.iter().map(|c| c.name.as_str()).collect();
    assert_eq!(
        names,
        vec![
            "BlogPostStatus_Published",
            "BlogPostStatus_Removed",
            "BlogPostStatus__Composite",
            "Outer_A",
            "Outer_B",
            "Outer__Composite"
        ]
    );
    assert!(cs[4].fields[0].1.nullable);
}

#[test]
fn blog_post_status_composites() {
    let cs = <BlogPostStatus as HasDbType>::composites();
    assert_eq!(cs.len(), 3);
    assert_eq!(cs[1].name, "BlogPostStatus_Removed");
    assert_eq!(
        cs[1].fields,
        vec![("at".to_string(), plain("SMALLINT")), ("reason".to_string(), plain("TEXT"))]
    );
    assert_eq!(<BlogPostStatus as HasDbType>::db_type(), plain("BlogPostStatus__Composite"));
}
