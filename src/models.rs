//! Example models: users and their blog posts, registered explicitly.
use vstd::prelude::*;

use crate::composite::{
    enum_composites, enum_composites_spec, merge_field_composites, enum_db_type, enum_db_type_spec, field_of, fields_model,
    variants_model, FieldDesc, FieldModel, VariantDesc, VariantModel,
};
use crate::db_types::{merge_composites, Composite, CompositeModel, DbType, DbTypeModel};
use crate::descriptor::{HasDbType, Varchar};
use crate::schema::{
    has_duplicate_field, has_name_conflict, has_reserved_field, has_table, registered_schema,
    registration_error, DbModel, ForeignKey, Schema, SchemaError, SchemaModel};

verus! {

/// The publication state of a blog post.
pub enum BlogPostStatus {
    Draft,
    Published { at: u16 },
    Removed { at: u16, reason: String },
}

/// The variants of [`BlogPostStatus`] with their named data.
pub open spec fn blog_post_status_variants() -> Seq<VariantModel> {
    seq![
        VariantModel { name: "Draft"@, fields: seq![] },
        VariantModel { name: "Published"@, fields: seq![field_of::<u16>("at"@)] },
        VariantModel {
            name: "Removed"@,
            fields: seq![field_of::<u16>("at"@), field_of::<String>("reason"@)],
        },
    ]
}

fn blog_post_status_variant_descs() -> (r: Vec<VariantDesc>)
    ensures
        variants_model(r@) == blog_post_status_variants(),
{
    let draft = VariantDesc { name: String::from_str("Draft"), fields: Vec::new() };
    let mut published_fields: Vec<FieldDesc> = Vec::new();
    published_fields.push(FieldDesc::of::<u16>(String::from_str("at")));
    let published = VariantDesc { name: String::from_str("Published"), fields: published_fields };
    let mut removed_fields: Vec<FieldDesc> = Vec::new();
    removed_fields.push(FieldDesc::of::<u16>(String::from_str("at")));
    removed_fields.push(FieldDesc::of::<String>(String::from_str("reason")));
    let removed = VariantDesc { name: String::from_str("Removed"), fields: removed_fields };
    assert(draft@.fields =~= Seq::<FieldModel>::empty());
    assert(published@.fields =~= seq![field_of::<u16>("at"@)]);
    assert(removed@.fields =~= seq![field_of::<u16>("at"@), field_of::<String>("reason"@)]);
    let mut r: Vec<VariantDesc> = Vec::new();
    r.push(draft);
    r.push(published);
    r.push(removed);
    assert(variants_model(r@) =~= blog_post_status_variants());
    r
}

impl HasDbType for BlogPostStatus {
    open spec fn db_type_spec() -> DbTypeModel {
        enum_db_type_spec("BlogPostStatus"@)
    }

    open spec fn composites_spec() -> Seq<CompositeModel> {
        enum_composites_spec("BlogPostStatus"@, blog_post_status_variants())
    }

    fn composites() -> (r: Vec<Composite>) {
        let variants = blog_post_status_variant_descs();
        enum_composites(&String::from_str("BlogPostStatus"), &variants)
    }

    fn db_type() -> (r: DbType) {
        enum_db_type(&String::from_str("BlogPostStatus"))
    }
}

/// A registered user.
pub struct User {
    pub email: String,
    pub password: String,
}

impl DbModel for User {
    open spec fn table_name_spec() -> Seq<char> {
        "User"@
    }

    open spec fn fields_spec() -> Seq<FieldModel> {
        seq![field_of::<String>("email"@), field_of::<String>("password"@)]
    }

    fn table_name() -> (r: String) {
        String::from_str("User")
    }

    fn activate(schema: &mut Schema) -> (r: Result<(), SchemaError>) {
        let mut fields: Vec<FieldDesc> = Vec::new();
        fields.push(FieldDesc::of::<String>(String::from_str("email")));
        fields.push(FieldDesc::of::<String>(String::from_str("password")));
        assert(fields_model(fields@) =~= Self::fields_spec());
        schema.register_model(&Self::table_name(), fields)
    }
}

/// A blog post written by a user.
pub struct BlogPost {
    pub name: String,
    pub content: Varchar<255>,
    pub status: BlogPostStatus,
    pub posted_by: ForeignKey<User>,
}

impl DbModel for BlogPost {
    open spec fn table_name_spec() -> Seq<char> {
        "BlogPost"@
    }

    open spec fn fields_spec() -> Seq<FieldModel> {
        seq![
            field_of::<String>("name"@),
            field_of::<Varchar<255>>("content"@),
            field_of::<BlogPostStatus>("status"@),
            field_of::<ForeignKey<User>>("posted_by"@),
        ]
    }

    fn table_name() -> (r: String) {
        String::from_str("BlogPost")
    }

    fn activate(schema: &mut Schema) -> (r: Result<(), SchemaError>) {
        let mut fields: Vec<FieldDesc> = Vec::new();
        fields.push(FieldDesc::of::<String>(String::from_str("name")));
        fields.push(FieldDesc::of::<Varchar<255>>(String::from_str("content")));
        fields.push(FieldDesc::of::<BlogPostStatus>(String::from_str("status")));
        fields.push(FieldDesc::of::<ForeignKey<User>>(String::from_str("posted_by")));
        assert(fields_model(fields@) =~= Self::fields_spec());
        schema.register_model(&Self::table_name(), fields)
    }
}

/// The schema after registering `User` into an empty schema.
pub open spec fn schema_with_user() -> SchemaModel {
    registered_schema(SchemaModel { composites: seq![], tables: seq![] }, User::table_name_spec(), User::fields_spec())
}

/// The error, if any, of registering the example models in order.
pub open spec fn example_error() -> Option<SchemaError> {
    match registration_error(SchemaModel { composites: seq![], tables: seq![] }, User::table_name_spec(), User::fields_spec()) {
        Some(e) => Some(e),
        None => registration_error(schema_with_user(), BlogPost::table_name_spec(), BlogPost::fields_spec()),
    }
}

/// The schema of the example models when both register without error.
pub open spec fn example_schema() -> SchemaModel {
    registered_schema(schema_with_user(), BlogPost::table_name_spec(), BlogPost::fields_spec())
}

/// The example models register without error.
proof fn lemma_example_registers()
    ensures
        example_error() is None,
{
    reveal_strlit("id");
    reveal_strlit("email");
    reveal_strlit("password");
    reveal_strlit("User");
    reveal_strlit("BlogPost");
    reveal_strlit("name");
    reveal_strlit("content");
    reveal_strlit("status");
    reveal_strlit("posted_by");
    reveal_strlit("BlogPostStatus");
    reveal_strlit("_");
    reveal_strlit("__Composite");
    reveal_strlit("Published");
    reveal_strlit("Removed");
    reveal_strlit("Draft");
    let empty = SchemaModel { composites: seq![], tables: seq![] };
    let uf = User::fields_spec();
    assert(uf[0].name.len() == 5 && uf[1].name.len() == 8);
    assert forall|i: int| 0 <= i < uf.len() implies #[trigger] uf[i].name != "id"@ by {
        assert(uf[i].name.len() != 2);
    }
    assert forall|i: int, j: int| 0 <= i < j < uf.len() implies #[trigger] uf[i].name != #[trigger] uf[j].name by {
        assert(uf[i].name.len() != uf[j].name.len());
    }
    assert(!has_reserved_field(uf));
    assert(!has_duplicate_field(uf));
    assert(!has_table(empty.tables, User::table_name_spec()));
    let none = Seq::<CompositeModel>::empty();
    assert(merge_composites(none, none) == none);
    assert(uf.drop_last().drop_last() =~= Seq::<FieldModel>::empty());
    assert(merge_field_composites(none, uf.drop_last().drop_last()) == none);
    assert(merge_field_composites(none, uf.drop_last()) == none);
    assert(merge_field_composites(none, uf) == none);
    assert(!has_name_conflict(none));
    assert(registration_error(empty, User::table_name_spec(), uf) is None);

    let mid = schema_with_user();
    let bf = BlogPost::fields_spec();
    assert(mid.composites == none);
    assert(mid.tables.len() == 1 && mid.tables[0].name == "User"@);
    assert(bf[0].name.len() == 4 && bf[1].name.len() == 7 && bf[2].name.len() == 6 && bf[3].name.len() == 9);
    assert forall|i: int| 0 <= i < bf.len() implies #[trigger] bf[i].name != "id"@ by {
        assert(bf[i].name.len() != 2);
    }
    assert forall|i: int, j: int| 0 <= i < j < bf.len() implies #[trigger] bf[i].name != #[trigger] bf[j].name by {
        assert(bf[i].name.len() != bf[j].name.len());
    }
    assert(!has_reserved_field(bf));
    assert(!has_duplicate_field(bf));
    assert(!has_table(mid.tables, BlogPost::table_name_spec()));

    let tn = "BlogPostStatus"@;
    let vs = blog_post_status_variants();
    let vp = crate::composite::variant_composite(tn, vs[1]);
    let vr = crate::composite::variant_composite(tn, vs[2]);
    let w = crate::composite::wrapper_composite(tn, vs);
    assert(vs.drop_last().drop_last().drop_last() =~= Seq::<VariantModel>::empty());
    assert(vs.drop_last().drop_last() =~= seq![vs[0]]);
    assert(vs.drop_last() =~= seq![vs[0], vs[1]]);
    assert(crate::composite::variant_composites(tn, Seq::<VariantModel>::empty()) == none);
    assert(crate::composite::variant_composites(tn, seq![vs[0]]) == none);
    let f1 = vs[1].fields;
    assert(f1.drop_last() =~= Seq::<FieldModel>::empty());
    assert(merge_field_composites(none, f1) == none);
    assert(crate::composite::variant_composites(tn, seq![vs[0], vs[1]]) =~= seq![vp]);
    let f2 = vs[2].fields;
    assert(f2.drop_last().drop_last() =~= Seq::<FieldModel>::empty());
    assert(merge_composites(seq![vp], none) == seq![vp]);
    assert(merge_field_composites(seq![vp], f2.drop_last().drop_last()) == seq![vp]);
    assert(f2.drop_last().last().composites == none);
    assert(merge_field_composites(seq![vp], f2.drop_last()) == seq![vp]);
    assert(merge_field_composites(seq![vp], f2) == seq![vp]);
    assert(vp.name.len() != vr.name.len());
    assert(crate::composite::variant_composites(tn, vs) =~= seq![vp, vr]);
    assert(w.name.len() != vp.name.len() && w.name.len() != vr.name.len());
    let ec = seq![vp, vr, w];
    assert(enum_composites_spec(tn, vs) =~= ec);
    assert(ec.drop_last().drop_last().drop_last() =~= none);
    assert(ec.drop_last().drop_last() =~= seq![vp]);
    assert(ec.drop_last() =~= seq![vp, vr]);
    assert(merge_composites(none, ec.drop_last().drop_last()) =~= seq![vp]);
    assert(merge_composites(none, ec.drop_last()) =~= seq![vp, vr]);
    assert(merge_composites(none, ec) =~= ec);
    assert(bf.drop_last().drop_last().drop_last().drop_last() =~= Seq::<FieldModel>::empty());
    assert(merge_field_composites(none, bf.drop_last().drop_last().drop_last()) == none);
    assert(merge_field_composites(none, bf.drop_last().drop_last()) == none);
    assert(merge_field_composites(none, bf.drop_last()) == ec);
    assert(merge_composites(ec, none) == ec);
    assert(merge_field_composites(none, bf) == ec);
    assert(!has_name_conflict(ec));
}

/// The schema of the example models: each activated in declaration order
/// against one schema.
pub fn get_schema() -> (r: Result<Schema, SchemaError>)
    ensures
        r matches Ok(s) && s@ == example_schema(),
{
    proof {
        lemma_example_registers();
    }
    let mut schema = Schema::empty();
    assert(schema@ == (SchemaModel { composites: seq![], tables: seq![] }));
    match User::activate(&mut schema) {
        Err(e) => {
            return Err(e);
        },
        Ok(()) => {},
    }
    match BlogPost::activate(&mut schema) {
        Err(e) => {
            return Err(e);
        },
        Ok(()) => {},
    }
    Ok(schema)
}

} // verus!
