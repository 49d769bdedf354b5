//! The layout table: where each field of a record lives.
//!
//! A record is laid out as an 11-character station id, a 4-character year,
//! a 2-character month, a 4-character element code, and then 31 day tuples
//! of 8 characters each: a 5-character value and three 1-character flags.
//! A full record is therefore 21 + 31 * 8 = 269 characters long.

use vstd::prelude::*;
use vstd::arithmetic::div_mod::lemma_fundamental_div_mod;
use vstd::arithmetic::div_mod::lemma_mod_bound;

verus! {

/// Length in characters of a record that carries all 31 day slots.
pub const FULL_RECORD_LEN: usize = 269;

/// One field of a record; the day-indexed fields carry their day index.
pub enum Field {
    StationId,
    Year,
    Month,
    ElementCode,
    Value(int),
    MeasurementFlag(int),
    QualityFlag(int),
    SourceFlag(int),
}

/// A field is valid when its day index, if it has one, is in 0..=30.
pub open spec fn field_valid(f: Field) -> bool {
    match f {
        Field::StationId => true,
        Field::Year => true,
        Field::Month => true,
        Field::ElementCode => true,
        Field::Value(i) => 0 <= i <= 30,
        Field::MeasurementFlag(i) => 0 <= i <= 30,
        Field::QualityFlag(i) => 0 <= i <= 30,
        Field::SourceFlag(i) => 0 <= i <= 30,
    }
}

/// The character offset where a field begins.
pub open spec fn field_start(f: Field) -> int {
    match f {
        Field::StationId => 0,
        Field::Year => 11,
        Field::Month => 15,
        Field::ElementCode => 17,
        Field::Value(i) => 21 + 8 * i,
        Field::MeasurementFlag(i) => 26 + 8 * i,
        Field::QualityFlag(i) => 27 + 8 * i,
        Field::SourceFlag(i) => 28 + 8 * i,
    }
}

/// The width in characters of a field.
pub open spec fn field_width(f: Field) -> int {
    match f {
        Field::StationId => 11,
        Field::Year => 4,
        Field::Month => 2,
        Field::ElementCode => 4,
        Field::Value(_) => 5,
        Field::MeasurementFlag(_) => 1,
        Field::QualityFlag(_) => 1,
        Field::SourceFlag(_) => 1,
    }
}

/// The character offset just past the end of a field.
pub open spec fn field_end(f: Field) -> int {
    field_start(f) + field_width(f)
}

/// Whether character position `b` lies inside a valid field `f`.
pub open spec fn field_contains(f: Field, b: int) -> bool {
    field_valid(f) && field_start(f) <= b < field_end(f)
}

/// Every valid field lies inside the full record.
pub proof fn lemma_field_within_record(f: Field)
    requires
        field_valid(f),
    ensures
        0 <= field_start(f),
        field_end(f) <= FULL_RECORD_LEN,
{
}

/// The layout has no gaps and no overlaps: every character position of a
/// full record belongs to exactly one valid field.
pub proof fn lemma_layout_partitions_record(b: int)
    requires
        0 <= b < FULL_RECORD_LEN,
    ensures
        exists|f: Field| #[trigger] field_contains(f, b),
        forall|f1: Field, f2: Field|
            field_contains(f1, b) && field_contains(f2, b) ==> f1 == f2,
{
    if b < 11 {
        assert(field_contains(Field::StationId, b));
    } else if b < 15 {
        assert(field_contains(Field::Year, b));
    } else if b < 17 {
        assert(field_contains(Field::Month, b));
    } else if b < 21 {
        assert(field_contains(Field::ElementCode, b));
    } else {
        let i: int = (b - 21) / 8;
        let r: int = (b - 21) % 8;
        lemma_fundamental_div_mod(b - 21, 8);
        lemma_mod_bound(b - 21, 8);
        if r < 5 {
            assert(field_contains(Field::Value(i), b));
        } else if r == 5 {
            assert(field_contains(Field::MeasurementFlag(i), b));
        } else if r == 6 {
            assert(field_contains(Field::QualityFlag(i), b));
        } else {
            assert(field_contains(Field::SourceFlag(i), b));
        }
    }
}

} // verus!
