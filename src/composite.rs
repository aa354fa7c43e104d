//! Composite types for enum-like values: one composite per variant that
//! carries named data, plus a wrapping composite with a discriminant.
use vstd::prelude::*;

use crate::db_types::{
    add_composite, composites_model, insert_composite, merge_composites, merge_into, plain_type, Composite,
    CompositeModel, DbType, DbTypeModel,
};
use crate::descriptor::HasDbType;

verus! {

/// Mathematical value of a [`FieldDesc`].
pub struct FieldModel {
    pub name: Seq<char>,
    pub db_type: DbTypeModel,
    pub composites: Seq<CompositeModel>,
}

/// A named datum: its column type and the composites that type needs.
#[derive(Debug)]
pub struct FieldDesc {
    pub name: String,
    pub db_type: DbType,
    pub composites: Vec<Composite>,
}

impl View for FieldDesc {
    type V = FieldModel;

    open spec fn view(&self) -> FieldModel {
        FieldModel { name: self.name@, db_type: self.db_type@, composites: composites_model(self.composites@) }
    }
}

/// The models of a sequence of fields.
pub open spec fn fields_model(fs: Seq<FieldDesc>) -> Seq<FieldModel> {
    fs.map_values(|f: FieldDesc| f@)
}

/// The field model of a datum of value type `T`.
pub open spec fn field_of<T: HasDbType>(name: Seq<char>) -> FieldModel {
    FieldModel { name, db_type: T::db_type_spec(), composites: T::composites_spec() }
}

impl FieldDesc {
    /// Describes a datum named `name` whose value type is `T`.
    pub fn of<T: HasDbType>(name: String) -> (r: FieldDesc)
        ensures
            r@ == field_of::<T>(name@),
    {
        FieldDesc { name, db_type: T::db_type(), composites: T::composites() }
    }
}

/// Mathematical value of a [`VariantDesc`].
pub struct VariantModel {
    pub name: Seq<char>,
    pub fields: Seq<FieldModel>,
}

/// One variant of an enum-like value, with its named data in declaration order.
#[derive(Debug)]
pub struct VariantDesc {
    pub name: String,
    pub fields: Vec<FieldDesc>,
}

impl View for VariantDesc {
    type V = VariantModel;

    open spec fn view(&self) -> VariantModel {
        VariantModel { name: self.name@, fields: fields_model(self.fields@) }
    }
}

/// The models of a sequence of variants.
pub open spec fn variants_model(vs: Seq<VariantDesc>) -> Seq<VariantModel> {
    vs.map_values(|v: VariantDesc| v@)
}

/// `set` with the composites of every field merged in, in field order.
pub open spec fn merge_field_composites(set: Seq<CompositeModel>, fs: Seq<FieldModel>) -> Seq<CompositeModel>
    decreases fs.len(),
{
    if fs.len() == 0 {
        set
    } else {
        merge_composites(merge_field_composites(set, fs.drop_last()), fs.last().composites)
    }
}

/// `<enum_name>_<variant_name>`.
pub open spec fn variant_composite_name(enum_name: Seq<char>, variant_name: Seq<char>) -> Seq<char> {
    enum_name + "_"@ + variant_name
}

/// `<enum_name>__Composite`.
pub open spec fn wrapper_composite_name(enum_name: Seq<char>) -> Seq<char> {
    enum_name + "__Composite"@
}

/// The composite holding the named data of one variant.
pub open spec fn variant_composite(enum_name: Seq<char>, v: VariantModel) -> CompositeModel {
    CompositeModel {
        name: variant_composite_name(enum_name, v.name),
        fields: v.fields.map_values(|f: FieldModel| (f.name, f.db_type)),
    }
}

/// One field per data-carrying variant, referring to that variant's composite.
pub open spec fn variant_refs(enum_name: Seq<char>, vs: Seq<VariantModel>) -> Seq<(Seq<char>, DbTypeModel)>
    decreases vs.len(),
{
    if vs.len() == 0 {
        Seq::empty()
    } else if vs.last().fields.len() == 0 {
        variant_refs(enum_name, vs.drop_last())
    } else {
        variant_refs(enum_name, vs.drop_last()).push(
            (vs.last().name, plain_type(variant_composite_name(enum_name, vs.last().name))),
        )
    }
}

/// The wrapping composite: a discriminant, then one field per data-carrying variant.
pub open spec fn wrapper_composite(enum_name: Seq<char>, vs: Seq<VariantModel>) -> CompositeModel {
    CompositeModel {
        name: wrapper_composite_name(enum_name),
        fields: seq![(enum_name, <u32 as HasDbType>::db_type_spec())] + variant_refs(enum_name, vs),
    }
}

/// The composites of the variants: for each data-carrying variant, what its
/// fields need, then its own composite.
pub open spec fn variant_composites(enum_name: Seq<char>, vs: Seq<VariantModel>) -> Seq<CompositeModel>
    decreases vs.len(),
{
    if vs.len() == 0 {
        Seq::empty()
    } else {
        let acc = variant_composites(enum_name, vs.drop_last());
        let v = vs.last();
        if v.fields.len() == 0 {
            acc
        } else {
            add_composite(merge_field_composites(acc, v.fields), variant_composite(enum_name, v))
        }
    }
}

/// Every composite an enum-like value type needs, ending with its wrapper.
pub open spec fn enum_composites_spec(enum_name: Seq<char>, vs: Seq<VariantModel>) -> Seq<CompositeModel> {
    add_composite(variant_composites(enum_name, vs), wrapper_composite(enum_name, vs))
}

/// The column type of an enum-like value: a reference to its wrapping composite.
pub open spec fn enum_db_type_spec(enum_name: Seq<char>) -> DbTypeModel {
    plain_type(wrapper_composite_name(enum_name))
}

/// The column type of an enum-like value named `enum_name`.
pub fn enum_db_type(enum_name: &String) -> (r: DbType)
    ensures
        r@ == enum_db_type_spec(enum_name@),
{
    let mut base = enum_name.clone();
    base.append("__Composite");
    DbType::plain(base)
}

/// The composite of one data-carrying variant.
fn build_variant_composite(enum_name: &String, v: &VariantDesc) -> (r: Composite)
    ensures
        r@ == variant_composite(enum_name@, v@),
{
    let mut name = enum_name.clone();
    name.append("_");
    name.append(v.name.as_str());
    let mut fields: Vec<(String, DbType)> = Vec::new();
    for i in 0..v.fields.len()
        invariant
            fields@.len() == i,
            forall|j: int| 0 <= j < i ==> (#[trigger] fields@[j]).0@ == v.fields@[j].name@
                && fields@[j].1@ == v.fields@[j].db_type@,
    {
        fields.push((v.fields[i].name.clone(), v.fields[i].db_type.copy()));
    }
    let r = Composite { name, fields };
    assert(r@.fields =~= variant_composite(enum_name@, v@).fields);
    r
}

/// The wrapping composite of an enum-like value.
fn build_wrapper_composite(enum_name: &String, variants: &Vec<VariantDesc>) -> (r: Composite)
    ensures
        r@ == wrapper_composite(enum_name@, variants_model(variants@)),
{
    let ghost vm = variants_model(variants@);
    let mut name = enum_name.clone();
    name.append("__Composite");
    let mut fields: Vec<(String, DbType)> = Vec::new();
    fields.push((enum_name.clone(), <u32 as HasDbType>::db_type()));
    for i in 0..variants.len()
        invariant
            vm == variants_model(variants@),
            fields@.map_values(|f| crate::db_types::field_model(f))
                == seq![(enum_name@, <u32 as HasDbType>::db_type_spec())] + variant_refs(enum_name@, vm.take(i as int)),
    {
        let ghost before = fields@;
        proof {
            assert(vm.take(i + 1).drop_last() =~= vm.take(i as int));
            assert(vm.take(i + 1).last() == variants@[i as int]@);
        }
        let v = &variants[i];
        if v.fields.len() > 0 {
            let mut vname = enum_name.clone();
            vname.append("_");
            vname.append(v.name.as_str());
            fields.push((v.name.clone(), DbType::plain(vname)));
            assert(fields@.map_values(|f| crate::db_types::field_model(f)) =~= before.map_values(
                |f| crate::db_types::field_model(f),
            ).push(crate::db_types::field_model(fields@[fields@.len() - 1])));
        }
    }
    assert(vm.take(variants@.len() as int) =~= vm);
    let r = Composite { name, fields };
    r
}

/// Every composite an enum-like value named `enum_name` needs, without
/// duplicates, with each composite after those it refers to and the
/// wrapping composite last unless it was already present.
pub fn enum_composites(enum_name: &String, variants: &Vec<VariantDesc>) -> (r: Vec<Composite>)
    ensures
        composites_model(r@) == enum_composites_spec(enum_name@, variants_model(variants@)),
{
    let ghost vm = variants_model(variants@);
    let mut acc: Vec<Composite> = Vec::new();
    assert(composites_model(acc@) =~= Seq::<CompositeModel>::empty());
    for i in 0..variants.len()
        invariant
            vm == variants_model(variants@),
            composites_model(acc@) == variant_composites(enum_name@, vm.take(i as int)),
    {
        proof {
            assert(vm.take(i + 1).drop_last() =~= vm.take(i as int));
            assert(vm.take(i + 1).last() == variants@[i as int]@);
        }
        let v = &variants[i];
        if v.fields.len() > 0 {
            let ghost start = composites_model(acc@);
            let ghost fm = fields_model(v.fields@);
            for j in 0..v.fields.len()
                invariant
                    fm == fields_model(v.fields@),
                    composites_model(acc@) == merge_field_composites(start, fm.take(j as int)),
            {
                proof {
                    assert(fm.take(j + 1).drop_last() =~= fm.take(j as int));
                }
                merge_into(&mut acc, &v.fields[j].composites);
            }
            assert(fm.take(v.fields@.len() as int) =~= fm);
            let vc = build_variant_composite(enum_name, v);
            insert_composite(&mut acc, vc);
        }
    }
    assert(vm.take(variants@.len() as int) =~= vm);
    let wc = build_wrapper_composite(enum_name, variants);
    insert_composite(&mut acc, wc);
    acc
}

} // verus!
