//! The descriptor protocol: how a value type is stored as a column, and
//! which composite types it needs to exist first.
use vstd::prelude::*;

use crate::db_types::{composites_model, plain_type, Composite, CompositeModel, DbType, DbTypeModel};
use crate::text::{decimal, push_decimal};

verus! {

/// A value type that can be stored in a column.
pub trait HasDbType {
    /// The column type of one value.
    spec fn db_type_spec() -> DbTypeModel;

    /// The composite types this value type needs, in registration order.
    spec fn composites_spec() -> Seq<CompositeModel>;

    fn composites() -> (r: Vec<Composite>)
        ensures
            composites_model(r@) == Self::composites_spec();

    fn db_type() -> (r: DbType)
        ensures
            r@ == Self::db_type_spec();
}

/// A column type of the given base with every flag cleared, as an owned value.
fn scalar(base: &str) -> (r: DbType)
    ensures
        r@ == plain_type(base@),
{
    DbType::plain(String::from_str(base))
}

/// An empty composite list.
fn no_composites() -> (r: Vec<Composite>)
    ensures
        composites_model(r@) == Seq::<CompositeModel>::empty(),
{
    let r: Vec<Composite> = Vec::new();
    assert(composites_model(r@) =~= Seq::<CompositeModel>::empty());
    r
}

impl HasDbType for bool {
    open spec fn db_type_spec() -> DbTypeModel {
        plain_type("BOOLEAN"@)
    }

    open spec fn composites_spec() -> Seq<CompositeModel> {
        Seq::empty()
    }

    fn composites() -> (r: Vec<Composite>) {
        no_composites()
    }

    fn db_type() -> (r: DbType) {
        scalar("BOOLEAN")
    }
}

impl HasDbType for u8 {
    open spec fn db_type_spec() -> DbTypeModel {
        plain_type("SMALLINT"@)
    }

    open spec fn composites_spec() -> Seq<CompositeModel> {
        Seq::empty()
    }

    fn composites() -> (r: Vec<Composite>) {
        no_composites()
    }

    fn db_type() -> (r: DbType) {
        scalar("SMALLINT")
    }
}

impl HasDbType for u16 {
    open spec fn db_type_spec() -> DbTypeModel {
        plain_type("SMALLINT"@)
    }

    open spec fn composites_spec() -> Seq<CompositeModel> {
        Seq::empty()
    }

    fn composites() -> (r: Vec<Composite>) {
        no_composites()
    }

    fn db_type() -> (r: DbType) {
        scalar("SMALLINT")
    }
}

impl HasDbType for u32 {
    open spec fn db_type_spec() -> DbTypeModel {
        plain_type("INT"@)
    }

    open spec fn composites_spec() -> Seq<CompositeModel> {
        Seq::empty()
    }

    fn composites() -> (r: Vec<Composite>) {
        no_composites()
    }

    fn db_type() -> (r: DbType) {
        scalar("INT")
    }
}

impl HasDbType for u64 {
    open spec fn db_type_spec() -> DbTypeModel {
        plain_type("BIGINT"@)
    }

    open spec fn composites_spec() -> Seq<CompositeModel> {
        Seq::empty()
    }

    fn composites() -> (r: Vec<Composite>) {
        no_composites()
    }

    fn db_type() -> (r: DbType) {
        scalar("BIGINT")
    }
}

impl HasDbType for i8 {
    open spec fn db_type_spec() -> DbTypeModel {
        plain_type("SMALLINT"@)
    }

    open spec fn composites_spec() -> Seq<CompositeModel> {
        Seq::empty()
    }

    fn composites() -> (r: Vec<Composite>) {
        no_composites()
    }

    fn db_type() -> (r: DbType) {
        scalar("SMALLINT")
    }
}

impl HasDbType for i16 {
    open spec fn db_type_spec() -> DbTypeModel {
        plain_type("SMALLINT"@)
    }

    open spec fn composites_spec() -> Seq<CompositeModel> {
        Seq::empty()
    }

    fn composites() -> (r: Vec<Composite>) {
        no_composites()
    }

    fn db_type() -> (r: DbType) {
        scalar("SMALLINT")
    }
}

impl HasDbType for i32 {
    open spec fn db_type_spec() -> DbTypeModel {
        plain_type("INT"@)
    }

    open spec fn composites_spec() -> Seq<CompositeModel> {
        Seq::empty()
    }

    fn composites() -> (r: Vec<Composite>) {
        no_composites()
    }

    fn db_type() -> (r: DbType) {
        scalar("INT")
    }
}

impl HasDbType for i64 {
    open spec fn db_type_spec() -> DbTypeModel {
        plain_type("BIGINT"@)
    }

    open spec fn composites_spec() -> Seq<CompositeModel> {
        Seq::empty()
    }

    fn composites() -> (r: Vec<Composite>) {
        no_composites()
    }

    fn db_type() -> (r: DbType) {
        scalar("BIGINT")
    }
}

impl HasDbType for String {
    open spec fn db_type_spec() -> DbTypeModel {
        plain_type("TEXT"@)
    }

    open spec fn composites_spec() -> Seq<CompositeModel> {
        Seq::empty()
    }

    fn composites() -> (r: Vec<Composite>) {
        no_composites()
    }

    fn db_type() -> (r: DbType) {
        scalar("TEXT")
    }
}

impl HasDbType for BitString {
    open spec fn db_type_spec() -> DbTypeModel {
        plain_type("BIT VARYING"@)
    }

    open spec fn composites_spec() -> Seq<CompositeModel> {
        Seq::empty()
    }

    fn composites() -> (r: Vec<Composite>) {
        no_composites()
    }

    fn db_type() -> (r: DbType) {
        scalar("BIT VARYING")
    }
}

impl HasDbType for chrono::NaiveDate {
    open spec fn db_type_spec() -> DbTypeModel {
        plain_type("DATE"@)
    }

    open spec fn composites_spec() -> Seq<CompositeModel> {
        Seq::empty()
    }

    fn composites() -> (r: Vec<Composite>) {
        no_composites()
    }

    fn db_type() -> (r: DbType) {
        scalar("DATE")
    }
}

impl HasDbType for chrono::NaiveTime {
    open spec fn db_type_spec() -> DbTypeModel {
        plain_type("TIME"@)
    }

    open spec fn composites_spec() -> Seq<CompositeModel> {
        Seq::empty()
    }

    fn composites() -> (r: Vec<Composite>) {
        no_composites()
    }

    fn db_type() -> (r: DbType) {
        scalar("TIME")
    }
}

impl HasDbType for chrono::NaiveDateTime {
    open spec fn db_type_spec() -> DbTypeModel {
        plain_type("TIMESTAMP"@)
    }

    open spec fn composites_spec() -> Seq<CompositeModel> {
        Seq::empty()
    }

    fn composites() -> (r: Vec<Composite>) {
        no_composites()
    }

    fn db_type() -> (r: DbType) {
        scalar("TIMESTAMP")
    }
}

impl HasDbType for uuid::Uuid {
    open spec fn db_type_spec() -> DbTypeModel {
        plain_type("Uuid"@)
    }

    open spec fn composites_spec() -> Seq<CompositeModel> {
        Seq::empty()
    }

    fn composites() -> (r: Vec<Composite>) {
        no_composites()
    }

    fn db_type() -> (r: DbType) {
        scalar("Uuid")
    }
}

impl HasDbType for serde_json::Value {
    open spec fn db_type_spec() -> DbTypeModel {
        plain_type("JSONB"@)
    }

    open spec fn composites_spec() -> Seq<CompositeModel> {
        Seq::empty()
    }

    fn composites() -> (r: Vec<Composite>) {
        no_composites()
    }

    fn db_type() -> (r: DbType) {
        scalar("JSONB")
    }
}

impl HasDbType for LenientJson {
    open spec fn db_type_spec() -> DbTypeModel {
        plain_type("JSON"@)
    }

    open spec fn composites_spec() -> Seq<CompositeModel> {
        Seq::empty()
    }

    fn composites() -> (r: Vec<Composite>) {
        no_composites()
    }

    fn db_type() -> (r: DbType) {
        scalar("JSON")
    }
}

/// Text of exactly `SIZE` characters.
pub struct ExactString<const SIZE: usize>(pub String);

impl<const SIZE: usize> HasDbType for ExactString<SIZE> {
    open spec fn db_type_spec() -> DbTypeModel {
        plain_type("CHAR("@ + decimal(SIZE as nat) + ")"@)
    }

    open spec fn composites_spec() -> Seq<CompositeModel> {
        Seq::empty()
    }

    fn composites() -> (r: Vec<Composite>) {
        no_composites()
    }

    fn db_type() -> (r: DbType) {
        let mut base = String::from_str("CHAR(");
        push_decimal(&mut base, SIZE as u64);
        base.append(")");
        DbType::plain(base)
    }
}

/// A bit string of exactly `SIZE` bits.
pub struct BitStringFixed<const SIZE: usize>(pub [bool; SIZE]);

impl<const SIZE: usize> HasDbType for BitStringFixed<SIZE> {
    open spec fn db_type_spec() -> DbTypeModel {
        plain_type("BIT("@ + decimal(SIZE as nat) + ")"@)
    }

    open spec fn composites_spec() -> Seq<CompositeModel> {
        Seq::empty()
    }

    fn composites() -> (r: Vec<Composite>) {
        no_composites()
    }

    fn db_type() -> (r: DbType) {
        let mut base = String::from_str("BIT(");
        push_decimal(&mut base, SIZE as u64);
        base.append(")");
        DbType::plain(base)
    }
}

/// A bit string of any length.
pub struct BitString(pub Vec<bool>);

/// A JSON document stored as text rather than in binary form.
pub struct LenientJson(pub serde_json::Value);

/// A fixed-point decimal with `BEFORE` digits of precision and `AFTER` digits of scale.
pub struct Decimal<const BEFORE: u16, const AFTER: u16>();

impl<const BEFORE: u16, const AFTER: u16> HasDbType for Decimal<BEFORE, AFTER> {
    open spec fn db_type_spec() -> DbTypeModel {
        plain_type("DECIMAL("@ + decimal(BEFORE as nat) + ", "@ + decimal(AFTER as nat) + ")"@)
    }

    open spec fn composites_spec() -> Seq<CompositeModel> {
        Seq::empty()
    }

    fn composites() -> (r: Vec<Composite>) {
        no_composites()
    }

    fn db_type() -> (r: DbType) {
        let mut base = String::from_str("DECIMAL(");
        push_decimal(&mut base, BEFORE as u64);
        base.append(", ");
        push_decimal(&mut base, AFTER as u64);
        base.append(")");
        DbType::plain(base)
    }
}

impl<T: HasDbType> HasDbType for Vec<T> {
    open spec fn db_type_spec() -> DbTypeModel {
        DbTypeModel { base: T::db_type_spec().base + "[]"@, ..T::db_type_spec() }
    }

    open spec fn composites_spec() -> Seq<CompositeModel> {
        T::composites_spec()
    }

    fn composites() -> (r: Vec<Composite>) {
        T::composites()
    }

    fn db_type() -> (r: DbType) {
        let mut raw = T::db_type();
        raw.base.append("[]");
        raw
    }
}

impl<T: HasDbType, const N: usize> HasDbType for [T; N] {
    open spec fn db_type_spec() -> DbTypeModel {
        DbTypeModel { base: T::db_type_spec().base + "["@ + decimal(N as nat) + "]"@, ..T::db_type_spec() }
    }

    open spec fn composites_spec() -> Seq<CompositeModel> {
        T::composites_spec()
    }

    fn composites() -> (r: Vec<Composite>) {
        T::composites()
    }

    fn db_type() -> (r: DbType) {
        let mut raw = T::db_type();
        raw.base.append("[");
        push_decimal(&mut raw.base, N as u64);
        raw.base.append("]");
        raw
    }
}

impl<T: HasDbType> HasDbType for Option<T> {
    open spec fn db_type_spec() -> DbTypeModel {
        DbTypeModel { nullable: true, ..T::db_type_spec() }
    }

    open spec fn composites_spec() -> Seq<CompositeModel> {
        T::composites_spec()
    }

    fn composites() -> (r: Vec<Composite>) {
        T::composites()
    }

    fn db_type() -> (r: DbType) {
        let mut raw = T::db_type();
        raw.nullable = true;
        raw
    }
}

/// Varying-length text of at most `SIZE` characters.
pub struct Varchar<const SIZE: usize>(pub String);

impl<const SIZE: usize> HasDbType for Varchar<SIZE> {
    open spec fn db_type_spec() -> DbTypeModel {
        plain_type("VARCHAR("@ + decimal(SIZE as nat) + ")"@)
    }

    open spec fn composites_spec() -> Seq<CompositeModel> {
        Seq::empty()
    }

    fn composites() -> (r: Vec<Composite>) {
        no_composites()
    }

    fn db_type() -> (r: DbType) {
        let mut base = String::from_str("VARCHAR(");
        push_decimal(&mut base, SIZE as u64);
        base.append(")");
        DbType::plain(base)
    }
}

/// Wrapping a value type `T`: `Option<T>` makes the column nullable,
/// `Vec<T>` appends `[]` to the base, `[T; N]` appends `[N]`; every other
/// part of the column type, and the composites needed, stay those of `T`.
/// Since each holds for every `T`, it holds along any chain of wrappers.
pub proof fn lemma_wrapper_types<T: HasDbType, const N: usize>()
    ensures
        <Option<T> as HasDbType>::db_type_spec().nullable,
        <Option<T> as HasDbType>::db_type_spec().base == T::db_type_spec().base,
        <Option<T> as HasDbType>::db_type_spec().indexed == T::db_type_spec().indexed,
        <Option<T> as HasDbType>::db_type_spec().primary_key == T::db_type_spec().primary_key,
        <Option<T> as HasDbType>::db_type_spec().unique == T::db_type_spec().unique,
        <Option<T> as HasDbType>::composites_spec() == T::composites_spec(),
        <Vec<T> as HasDbType>::db_type_spec().base == T::db_type_spec().base + "[]"@,
        <Vec<T> as HasDbType>::db_type_spec().nullable == T::db_type_spec().nullable,
        <Vec<T> as HasDbType>::db_type_spec().indexed == T::db_type_spec().indexed,
        <Vec<T> as HasDbType>::db_type_spec().primary_key == T::db_type_spec().primary_key,
        <Vec<T> as HasDbType>::db_type_spec().unique == T::db_type_spec().unique,
        <Vec<T> as HasDbType>::composites_spec() == T::composites_spec(),
        <[T; N] as HasDbType>::db_type_spec().base == T::db_type_spec().base + "["@ + decimal(N as nat) + "]"@,
        <[T; N] as HasDbType>::db_type_spec().nullable == T::db_type_spec().nullable,
        <[T; N] as HasDbType>::db_type_spec().indexed == T::db_type_spec().indexed,
        <[T; N] as HasDbType>::db_type_spec().primary_key == T::db_type_spec().primary_key,
        <[T; N] as HasDbType>::db_type_spec().unique == T::db_type_spec().unique,
        <[T; N] as HasDbType>::composites_spec() == T::composites_spec(),
{
}

} // verus!
