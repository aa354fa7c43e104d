//! Query descriptions: a query set records where rows come from and the
//! steps applied to them, without running anything.
use vstd::prelude::*;

verus! {

/// A model that can be queried, with the types its queries work with.
pub trait Queryable {
    type Data;
    type Insertable;
    type Filters;
    type Update;
}

/// Access to the filter state of one field.
pub trait GetFilterState<FieldType> {
    fn get(&mut self) -> &mut FilterState<FieldType>;
}

/// The filters of one field.
pub trait Filters<FieldType>: GetFilterState<FieldType> {}

/// Values a field is filtered against.
#[derive(Debug, Default, Clone)]
pub struct FilterState<FieldType>(pub Vec<FieldType>);

/// A row returned for a model.
pub struct DatabaseResult<Model: Queryable>(pub Model::Data);

/// A value that remembers whether it was written to.
#[derive(Clone, Debug, Default)]
pub struct TrackingMut<FieldType> {
    data: FieldType,
    edited: bool,
}

impl<FieldType> TrackingMut<FieldType> {
    pub closed spec fn value(&self) -> FieldType {
        self.data
    }

    pub closed spec fn was_edited(&self) -> bool {
        self.edited
    }

    /// A value that has not been written to.
    pub fn new(data: FieldType) -> (r: Self)
        ensures
            r.value() == data,
            !r.was_edited(),
    {
        TrackingMut { data, edited: false }
    }

    pub fn get(&self) -> (r: &FieldType)
        ensures
            *r == self.value(),
    {
        &self.data
    }

    pub fn is_edited(&self) -> (r: bool)
        ensures
            r == self.was_edited(),
    {
        self.edited
    }

    /// Replaces the value and marks it as written.
    pub fn set(&mut self, data: FieldType)
        ensures
            final(self).value() == data,
            final(self).was_edited(),
    {
        self.data = data;
        self.edited = true;
    }
}

/// Where the rows of a query come from.
#[derive(Debug, Clone, Copy, PartialEq, Eq, Structural)]
pub enum QuerySource {
    /// Every row of the model's table.
    All,
    /// No row at all.
    Nothing,
}

/// One step applied to the rows of a query, in order.
pub enum QueryStep<F> {
    Filter(F),
    Exclude(F),
    OrderBy,
    Reverse,
    Count,
    First,
    Last,
    Exists,
    Union(QueryPlan<F>),
    Intersection(QueryPlan<F>),
    Difference(QueryPlan<F>),
}

/// A source and the steps applied to it.
pub struct QueryPlan<F> {
    pub source: QuerySource,
    pub steps: Vec<QueryStep<F>>,
}

/// A query over the rows of `Model` on the database `DB`.
pub struct QuerySet<DB, Model: Queryable> {
    db: DB,
    plan: QueryPlan<Model::Filters>,
    _model: core::marker::PhantomData<Model>,
}

impl<DB, Model: Queryable> View for QuerySet<DB, Model> {
    type V = QueryPlan<Model::Filters>;

    closed spec fn view(&self) -> QueryPlan<Model::Filters> {
        self.plan
    }
}

impl<DB, Model: Queryable> QuerySet<DB, Model> {
    pub closed spec fn database(&self) -> DB {
        self.db
    }

    fn with_step(self, step: QueryStep<Model::Filters>) -> (r: Self)
        ensures
            r@.source == self@.source,
            r@.steps@ == self@.steps@.push(step),
            r.database() == self.database(),
    {
        let mut plan = self.plan;
        plan.steps.push(step);
        QuerySet { db: self.db, plan, _model: core::marker::PhantomData }
    }

    /// The plan recorded so far.
    pub fn plan(&self) -> (r: &QueryPlan<Model::Filters>)
        ensures
            *r == self@,
    {
        &self.plan
    }

    /// Every row of the model's table.
    pub fn all(db: DB) -> (r: Self)
        ensures
            r@.source == QuerySource::All,
            r@.steps@.len() == 0,
            r.database() == db,
    {
        QuerySet { db, plan: QueryPlan { source: QuerySource::All, steps: Vec::new() }, _model: core::marker::PhantomData }
    }

    /// No row at all.
    pub fn none(db: DB) -> (r: Self)
        ensures
            r@.source == QuerySource::Nothing,
            r@.steps@.len() == 0,
            r.database() == db,
    {
        QuerySet { db, plan: QueryPlan { source: QuerySource::Nothing, steps: Vec::new() }, _model: core::marker::PhantomData }
    }

    /// Keeps the rows that match `filters`.
    pub fn filter(self, filters: Model::Filters) -> (r: Self)
        ensures
            r@.source == self@.source,
            r@.steps@ == self@.steps@.push(QueryStep::Filter(filters)),
            r.database() == self.database(),
    {
        self.with_step(QueryStep::Filter(filters))
    }

    /// Drops the rows that match `filters`.
    pub fn exclude(self, filters: Model::Filters) -> (r: Self)
        ensures
            r@.source == self@.source,
            r@.steps@ == self@.steps@.push(QueryStep::Exclude(filters)),
            r.database() == self.database(),
    {
        self.with_step(QueryStep::Exclude(filters))
    }

    pub fn order_by(self) -> (r: Self)
        ensures
            r@.source == self@.source,
            r@.steps@ == self@.steps@.push(QueryStep::<Model::Filters>::OrderBy),
            r.database() == self.database(),
    {
        self.with_step(QueryStep::OrderBy)
    }

    pub fn reverse(self) -> (r: Self)
        ensures
            r@.source == self@.source,
            r@.steps@ == self@.steps@.push(QueryStep::<Model::Filters>::Reverse),
            r.database() == self.database(),
    {
        self.with_step(QueryStep::Reverse)
    }

    /// The rows of this query together with those of `other`.
    pub fn sum(self, other: Self) -> (r: Self)
        ensures
            r@.source == self@.source,
            r@.steps@ == self@.steps@.push(QueryStep::Union(other@)),
            r.database() == self.database(),
    {
        let other_plan = other.plan;
        self.with_step(QueryStep::Union(other_plan))
    }

    /// The rows of this query that `other` also yields.
    pub fn intersection(self, other: Self) -> (r: Self)
        ensures
            r@.source == self@.source,
            r@.steps@ == self@.steps@.push(QueryStep::Intersection(other@)),
            r.database() == self.database(),
    {
        let other_plan = other.plan;
        self.with_step(QueryStep::Intersection(other_plan))
    }

    /// The rows of this query that `other` does not yield.
    pub fn difference(self, other: Self) -> (r: Self)
        ensures
            r@.source == self@.source,
            r@.steps@ == self@.steps@.push(QueryStep::Difference(other@)),
            r.database() == self.database(),
    {
        let other_plan = other.plan;
        self.with_step(QueryStep::Difference(other_plan))
    }

    pub fn count(self) -> (r: Self)
        ensures
            r@.source == self@.source,
            r@.steps@ == self@.steps@.push(QueryStep::<Model::Filters>::Count),
            r.database() == self.database(),
    {
        self.with_step(QueryStep::Count)
    }

    pub fn first(self) -> (r: Self)
        ensures
            r@.source == self@.source,
            r@.steps@ == self@.steps@.push(QueryStep::<Model::Filters>::First),
            r.database() == self.database(),
    {
        self.with_step(QueryStep::First)
    }

    pub fn last(self) -> (r: Self)
        ensures
            r@.source == self@.source,
            r@.steps@ == self@.steps@.push(QueryStep::<Model::Filters>::Last),
            r.database() == self.database(),
    {
        self.with_step(QueryStep::Last)
    }

    pub fn exists_rows(self) -> (r: Self)
        ensures
            r@.source == self@.source,
            r@.steps@ == self@.steps@.push(QueryStep::<Model::Filters>::Exists),
            r.database() == self.database(),
    {
        self.with_step(QueryStep::Exists)
    }
}

} // verus!
