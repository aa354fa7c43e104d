use platt::query::{QuerySet, QuerySource, QueryStep, Queryable, TrackingMut};

struct Row;

impl Queryable for Row {
    type Data = u32;
    type Insertable = u32;
    type Filters = u32;
    type Update = u32;
}

#[test]
fn query_set_records_its_steps_in_order() {
    let q: QuerySet<(), Row> = QuerySet::all(());
    let q = q.filter(7).exclude(3).order_by().reverse().first();
    let plan = q.plan();
    assert_eq!(plan.source, QuerySource::All);
    assert_eq!(plan.steps.len(), 5);
    assert!(matches!(plan.steps[0], QueryStep::Filter(7)));
    assert!(matches!(plan.steps[1], QueryStep::Exclude(3)));
    assert!(matches!(plan.steps[2], QueryStep::OrderBy));
    assert!(matches!(plan.steps[3], QueryStep::Reverse));
    assert!(matches!(plan.steps[4], QueryStep::First));
}

#[test]
fn query_set_combinations_keep_the_other_plan() {
    let a: QuerySet<(), Row> = QuerySet::all(());
    let b: QuerySet<(), Row> = QuerySet::none(());
    let q = a.sum(b.count());
    let plan = q.plan();
    assert_eq!(plan.steps.len(), 1);
    match &plan.steps[0] {
        QueryStep::Union(other) => {
            assert_eq!(other.source, QuerySource::Nothing);
            assert!(matches!(other.steps[0], QueryStep::Count));
        }
        _ => panic!("expected a union"),
    }
    let q: QuerySet<(), Row> = QuerySet::all(());
    let q = q.intersection(QuerySet::all(())).difference(QuerySet::none(())).last().exists_rows();
    assert_eq!(q.plan().steps.len(), 4);
    assert!(matches!(q.plan().steps[1], QueryStep::Difference(_)));
    assert!(matches!(q.plan().steps[3], QueryStep::Exists));
}

#[test]
fn tracking_value_notices_writes() {
    let mut t = TrackingMut::new(5u32);
    assert!(!t.is_edited());
    assert_eq!(*t.get(), 5);
    t.set(6);
    assert!(t.is_edited());
    assert_eq!(*t.get(), 6);
}
