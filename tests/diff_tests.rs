use platt::composite::FieldDesc;
use platt::models::get_schema;
use platt::schema::Schema;

fn one_table(fields: Vec<FieldDesc>) -> Schema {
    let mut schema = Schema::empty();
    schema.register_model(&"M".to_string(), fields).unwrap();
    schema
}

#[test]
fn empty_snapshot_reports_the_table_as_added() {
    let cur = one_table(vec![FieldDesc::of::<String>("name".to_string())]);
    let d = cur.diff(&Schema::empty());
    assert_eq!(d.tables_added, vec!["M".to_string()]);
    assert!(d.tables_removed.is_empty());
    assert!(d.tables_changed.is_empty());
    assert!(d.composites_removed.is_empty());
    assert!(d.composites_changed.is_empty());
    assert!(!d.is_empty());
}

#[test]
fn identical_schemas_report_no_change() {
    let a = get_schema().unwrap();
    let b = get_schema().unwrap();
    assert!(a.diff(&b).is_empty());
    assert!(a.diff(&a).is_empty());
}

#[test]
fn removed_table_is_reported() {
    let prev = one_table(vec![]);
    let d = Schema::empty().diff(&prev);
    assert_eq!(d.tables_removed, vec!["M".to_string()]);
    assert!(d.tables_added.is_empty());
}

#[test]
fn column_changes_are_reported_per_table() {
    let prev = one_table(vec![
        FieldDesc::of::<String>("name".to_string()),
        FieldDesc::of::<u32>("age".to_string()),
        FieldDesc::of::<bool>("gone".to_string()),
    ]);
    let cur = one_table(vec![
        FieldDesc::of::<String>("name".to_string()),
        FieldDesc::of::<Option<u32>>("age".to_string()),
        FieldDesc::of::<i64>("fresh".to_string()),
    ]);
    let d = cur.diff(&prev);
    assert!(d.tables_added.is_empty() && d.tables_removed.is_empty());
    assert_eq!(d.tables_changed.len(), 1);
    let t = &d.tables_changed[0];
    assert_eq!(t.name, "M");
    assert_eq!(t.columns_added, vec!["fresh".to_string()]);
    assert_eq!(t.columns_removed, vec!["gone".to_string()]);
    assert_eq!(t.columns_changed, vec!["age".to_string()]);
}

#[test]
fn composite_changes_are_reported() {
    let cur = get_schema().unwrap();
    let d = cur.diff(&Schema::empty());
    assert_eq!(
        d.composites_added,
        vec![
            "BlogPostStatus_Published".to_string(),
            "BlogPostStatus_Removed".to_string(),
            "BlogPostStatus__Composite".to_string()
        ]
    );
    let back = Schema::empty().diff(&cur);
    assert_eq!(back.composites_removed.len(), 3);
    assert_eq!(back.tables_removed, vec!["User".to_string(), "BlogPost".to_string()]);
}
