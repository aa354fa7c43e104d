//! Column types, composite types, and the descriptor protocol that maps a
//! value type onto a column type.
use vstd::prelude::*;


verus! {

/// Mathematical value of a [`DbType`].
pub struct DbTypeModel {
    pub base: Seq<char>,
    pub nullable: bool,
    pub indexed: bool,
    pub primary_key: bool,
    pub unique: bool,
}

/// A column type: a raw SQL base fragment plus independent modifier flags.
#[derive(Debug, Default)]
pub struct DbType {
    pub base: String,
    pub nullable: bool,
    pub indexed: bool,
    pub primary_key: bool,
    pub unique: bool,
}

impl View for DbType {
    type V = DbTypeModel;

    open spec fn view(&self) -> DbTypeModel {
        DbTypeModel {
            base: self.base@,
            nullable: self.nullable,
            indexed: self.indexed,
            primary_key: self.primary_key,
            unique: self.unique,
        }
    }
}

/// A plain column type: the given base with every flag cleared.
pub open spec fn plain_type(base: Seq<char>) -> DbTypeModel {
    DbTypeModel { base, nullable: false, indexed: false, primary_key: false, unique: false }
}

impl DbType {
    /// A column type with the given base and every flag cleared.
    pub fn plain(base: String) -> (r: DbType)
        ensures
            r@ == plain_type(base@),
    {
        DbType { base, nullable: false, indexed: false, primary_key: false, unique: false }
    }

    /// A field-by-field copy.
    pub fn copy(&self) -> (r: DbType)
        ensures
            r@ == self@,
    {
        DbType {
            base: self.base.clone(),
            nullable: self.nullable,
            indexed: self.indexed,
            primary_key: self.primary_key,
            unique: self.unique,
        }
    }
}

impl PartialEq for DbType {
    fn eq(&self, o: &DbType) -> (r: bool) {
        self.base == o.base && self.nullable == o.nullable && self.indexed == o.indexed
            && self.primary_key == o.primary_key && self.unique == o.unique
    }
}

impl vstd::std_specs::cmp::PartialEqSpecImpl for DbType {
    open spec fn obeys_eq_spec() -> bool {
        true
    }

    open spec fn eq_spec(&self, o: &DbType) -> bool {
        self@ == o@
    }
}

/// Mathematical value of a [`Composite`].
pub struct CompositeModel {
    pub name: Seq<char>,
    pub fields: Seq<(Seq<char>, DbTypeModel)>,
}

/// A named structured SQL type with ordered fields.
#[derive(Debug)]
pub struct Composite {
    pub name: String,
    pub fields: Vec<(String, DbType)>,
}

pub open spec fn field_model(f: (String, DbType)) -> (Seq<char>, DbTypeModel) {
    (f.0@, f.1@)
}

impl View for Composite {
    type V = CompositeModel;

    open spec fn view(&self) -> CompositeModel {
        CompositeModel { name: self.name@, fields: self.fields@.map_values(|f| field_model(f)) }
    }
}

/// The models of a sequence of composites.
pub open spec fn composites_model(cs: Seq<Composite>) -> Seq<CompositeModel> {
    cs.map_values(|c: Composite| c@)
}

impl Composite {
    /// A field-by-field copy.
    pub fn copy(&self) -> (r: Composite)
        ensures
            r@ == self@,
    {
        let mut fields: Vec<(String, DbType)> = Vec::new();
        for i in 0..self.fields.len()
            invariant
                fields@.len() == i,
                forall|j: int| 0 <= j < i ==> field_model(#[trigger] fields@[j]) == field_model(self.fields@[j]),
        {
            let f = &self.fields[i];
            fields.push((f.0.clone(), f.1.copy()));
        }
        let r = Composite { name: self.name.clone(), fields };
        assert(r@.fields =~= self@.fields);
        r
    }

    /// Structural equality: same name and the same fields in the same order.
    pub fn same_as(&self, o: &Composite) -> (r: bool)
        ensures
            r == (self@ == o@),
    {
        if self.name != o.name || self.fields.len() != o.fields.len() {
            proof {
                if self@ == o@ {
                    assert(self@.fields.len() == o@.fields.len());
                }
            }
            return false;
        }
        for i in 0..self.fields.len()
            invariant
                self.fields.len() == o.fields.len(),
                forall|j: int| 0 <= j < i ==> field_model(self.fields@[j]) == field_model(o.fields@[j]),
        {
            if self.fields[i].0 != o.fields[i].0 || self.fields[i].1 != o.fields[i].1 {
                proof {
                    if self@ == o@ {
                        assert(self@.fields[i as int] == o@.fields[i as int]);
                    }
                }
                return false;
            }
        }
        assert(self@.fields =~= o@.fields);
        true
    }
}

impl PartialEq for Composite {
    fn eq(&self, o: &Composite) -> (r: bool) {
        self.same_as(o)
    }
}

impl vstd::std_specs::cmp::PartialEqSpecImpl for Composite {
    open spec fn obeys_eq_spec() -> bool {
        true
    }

    open spec fn eq_spec(&self, o: &Composite) -> bool {
        self@ == o@
    }
}

/// `set` with `c` added unless an equal composite is already there.
pub open spec fn add_composite(set: Seq<CompositeModel>, c: CompositeModel) -> Seq<CompositeModel> {
    if set.contains(c) {
        set
    } else {
        set.push(c)
    }
}

/// `set` with each composite of `new` added in order, skipping duplicates.
pub open spec fn merge_composites(set: Seq<CompositeModel>, new: Seq<CompositeModel>) -> Seq<CompositeModel>
    decreases new.len(),
{
    if new.len() == 0 {
        set
    } else {
        add_composite(merge_composites(set, new.drop_last()), new.last())
    }
}

/// No composite occurs twice.
pub open spec fn no_duplicates(set: Seq<CompositeModel>) -> bool {
    forall|i: int, j: int| 0 <= i < j < set.len() ==> set[i] != set[j]
}

/// Merging keeps every old entry in place, adds exactly the new ones, and
/// keeps the result free of duplicates.
pub proof fn lemma_merge_composites(set: Seq<CompositeModel>, new: Seq<CompositeModel>)
    ensures
        merge_composites(set, new).len() >= set.len(),
        merge_composites(set, new).subrange(0, set.len() as int) == set,
        forall|c: CompositeModel| #[trigger]
            merge_composites(set, new).contains(c) <==> (set.contains(c) || new.contains(c)),
        no_duplicates(set) ==> no_duplicates(merge_composites(set, new)),
    decreases new.len(),
{
    if new.len() > 0 {
        lemma_merge_composites(set, new.drop_last());
        let m = merge_composites(set, new.drop_last());
        assert(m.push(new.last()).subrange(0, set.len() as int) =~= m.subrange(0, set.len() as int));
        assert forall|c: CompositeModel| #[trigger]
            merge_composites(set, new).contains(c) <==> (set.contains(c) || new.contains(c)) by {
            if new.contains(c) && !new.drop_last().contains(c) {
                let k = choose|k: int| 0 <= k < new.len() && new[k] == c;
                if k < new.len() - 1 {
                    assert(new.drop_last()[k] == c);
                }
            }
            if new.drop_last().contains(c) {
                let k = choose|k: int| 0 <= k < new.drop_last().len() && new.drop_last()[k] == c;
                assert(new[k] == c);
            }
            if !m.contains(new.last()) {
                assert(m.push(new.last())[m.len() as int] == new.last());
                if m.contains(c) {
                    let k = choose|k: int| 0 <= k < m.len() && m[k] == c;
                    assert(m.push(new.last())[k] == c);
                }
                if m.push(new.last()).contains(c) && c != new.last() {
                    let k = choose|k: int| 0 <= k < m.len() + 1 && m.push(new.last())[k] == c;
                    assert(m[k] == c);
                }
            }
        }
    }
}

/// Adds each composite of `new` to `set` unless an equal one is already there.
pub fn merge_into(set: &mut Vec<Composite>, new: &Vec<Composite>)
    ensures
        composites_model(final(set)@) == merge_composites(composites_model(old(set)@), composites_model(new@)),
{
    let ghost start = composites_model(set@);
    for i in 0..new.len()
        invariant
            composites_model(set@) == merge_composites(start, composites_model(new@.take(i as int))),
    {
        let c = &new[i];
        let mut found = false;
        let mut j: usize = 0;
        while j < set.len()
            invariant
                j <= set.len(),
                found == exists|k: int| 0 <= k < j && set@[k]@ == c@,
            decreases set.len() - j,
        {
            if set[j].same_as(c) {
                found = true;
            }
            j += 1;
        }
        let ghost before = composites_model(set@);
        proof {
            assert(composites_model(new@.take(i + 1)).drop_last() =~= composites_model(new@.take(i as int)));
            assert(composites_model(new@.take(i + 1)).last() == c@);
            if found {
                let k = choose|k: int| 0 <= k < set.len() && set@[k]@ == c@;
                assert(before[k] == c@);
            } else {
                assert forall|k: int| 0 <= k < before.len() implies before[k] != c@ by {
                    assert(before[k] == set@[k]@);
                }
            }
        }
        if !found {
            set.push(c.copy());
            assert(composites_model(set@) =~= before.push(c@));
        }
    }
    assert(new@.take(new@.len() as int) =~= new@);
}

/// Adds `c` to `set` unless an equal composite is already there.
pub fn insert_composite(set: &mut Vec<Composite>, c: Composite)
    ensures
        composites_model(final(set)@) == add_composite(composites_model(old(set)@), c@),
{
    let mut one: Vec<Composite> = Vec::new();
    one.push(c);
    let ghost m = composites_model(one@);
    assert(m.drop_last() =~= Seq::<CompositeModel>::empty());
    assert(merge_composites(composites_model(set@), m.drop_last()) == composites_model(set@));
    merge_into(set, &one);
}

/// A copy of every composite, in order.
pub fn copy_composites(set: &Vec<Composite>) -> (r: Vec<Composite>)
    ensures
        composites_model(r@) == composites_model(set@),
{
    let mut r: Vec<Composite> = Vec::new();
    for i in 0..set.len()
        invariant
            r@.len() == i,
            forall|j: int| 0 <= j < i ==> (#[trigger] r@[j])@ == set@[j]@,
    {
        r.push(set[i].copy());
    }
    assert(composites_model(r@) =~= composites_model(set@));
    r
}

} // verus!
