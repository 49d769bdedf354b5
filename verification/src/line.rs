//! One record line: raw field extraction and typed decoding.
//!
//! The raw accessors slice a field out of the line, character for character,
//! with no trimming and no validation of content.  The typed accessors feed
//! the raw field to the numeric parser or to a code classifier.  Every
//! accessor reports a line that is too short for the requested field, or a
//! day index above 30, as a recoverable `OutOfBounds` error.

use vstd::prelude::*;
use vstd::string::StrSliceExecFns;

use crate::codes::classify_element;
use crate::codes::element_code;
use crate::codes::lemma_element_code_round_trip;
use crate::codes::lemma_measurement_code_round_trip;
use crate::codes::lemma_quality_code_round_trip;
use crate::codes::lemma_source_code_round_trip;
use crate::codes::measurement_code;
use crate::codes::quality_code;
use crate::codes::source_code;
use crate::codes::classify_measurement;
use crate::codes::classify_quality;
use crate::codes::classify_source;
use crate::codes::spec_classify_element;
use crate::codes::spec_measurement_of;
use crate::codes::spec_quality_of;
use crate::codes::spec_source_of;
use crate::codes::Element;
use crate::codes::Measurement;
use crate::codes::Quality;
use crate::codes::Source;
use crate::error::DecodeError;
use crate::layout::field_end;
use crate::layout::field_start;
use crate::layout::field_valid;
use crate::layout::Field;
use crate::numeric::lemma_render_value_round_trip;
use crate::numeric::parse_month;
use crate::numeric::parse_value;
use crate::numeric::parse_year;
use crate::numeric::render_value;
use crate::numeric::spec_parse_number;
use crate::numeric::spec_parse_value;
use crate::numeric::ABSENT_SENTINEL;

verus! {

/// Width in characters of one day's (value, flags) tuple.
pub const TUPLE_OFFSET: usize = 8;

/// What the year field of a line decodes to.
pub open spec fn spec_year(line: Seq<char>) -> Result<isize, DecodeError> {
    if line.len() < field_end(Field::Year) {
        Err(DecodeError::OutOfBounds)
    } else {
        spec_parse_number(line.subrange(field_start(Field::Year), field_end(Field::Year)))
    }
}

/// What the month field of a line decodes to.
pub open spec fn spec_month(line: Seq<char>) -> Result<isize, DecodeError> {
    if line.len() < field_end(Field::Month) {
        Err(DecodeError::OutOfBounds)
    } else {
        spec_parse_number(line.subrange(field_start(Field::Month), field_end(Field::Month)))
    }
}

/// What the element field of a line decodes to.
pub open spec fn spec_element(line: Seq<char>) -> Result<Element, DecodeError> {
    if line.len() < field_end(Field::ElementCode) {
        Err(DecodeError::OutOfBounds)
    } else {
        spec_classify_element(
            line.subrange(field_start(Field::ElementCode), field_end(Field::ElementCode)),
        )
    }
}

/// What day `i`'s value field of a line decodes to.
pub open spec fn spec_value(line: Seq<char>, i: int) -> Result<Option<isize>, DecodeError> {
    if !field_valid(Field::Value(i)) || line.len() < field_end(Field::Value(i)) {
        Err(DecodeError::OutOfBounds)
    } else {
        spec_parse_value(line.subrange(field_start(Field::Value(i)), field_end(Field::Value(i))))
    }
}

/// What day `i`'s measurement flag of a line decodes to.
pub open spec fn spec_measurement(line: Seq<char>, i: int) -> Result<Measurement, DecodeError> {
    if !field_valid(Field::MeasurementFlag(i)) || line.len() < field_end(
        Field::MeasurementFlag(i),
    ) {
        Err(DecodeError::OutOfBounds)
    } else {
        spec_measurement_of(line[field_start(Field::MeasurementFlag(i))])
    }
}

/// What day `i`'s quality flag of a line decodes to.
pub open spec fn spec_quality(line: Seq<char>, i: int) -> Result<Quality, DecodeError> {
    if !field_valid(Field::QualityFlag(i)) || line.len() < field_end(Field::QualityFlag(i)) {
        Err(DecodeError::OutOfBounds)
    } else {
        spec_quality_of(line[field_start(Field::QualityFlag(i))])
    }
}

/// What day `i`'s source flag of a line decodes to.
pub open spec fn spec_source(line: Seq<char>, i: int) -> Result<Source, DecodeError> {
    if !field_valid(Field::SourceFlag(i)) || line.len() < field_end(Field::SourceFlag(i)) {
        Err(DecodeError::OutOfBounds)
    } else {
        spec_source_of(line[field_start(Field::SourceFlag(i))])
    }
}

/// The record decoder.  Each method takes the line by reference and decodes
/// one field; no state is kept between calls.
pub struct DlyLine;

impl DlyLine {
    /// The 11-character station id field, verbatim: embedded padding or
    /// punctuation is kept as it stands.
    pub fn station_id_raw(line: &str) -> (r: Result<&str, DecodeError>)
        ensures
            match r {
                Ok(s) => line@.len() >= 11 && s@ == line@.subrange(0, 11),
                Err(e) => line@.len() < 11 && e == DecodeError::OutOfBounds,
            },
    {
        if line.unicode_len() < 11 {
            Err(DecodeError::OutOfBounds)
        } else {
            Ok(line.substring_char(0, 11))
        }
    }

    /// The 4-character year field, verbatim.
    pub fn year_raw(line: &str) -> (r: Result<&str, DecodeError>)
        ensures
            match r {
                Ok(s) => line@.len() >= 15 && s@ == line@.subrange(11, 15),
                Err(e) => line@.len() < 15 && e == DecodeError::OutOfBounds,
            },
    {
        if line.unicode_len() < 15 {
            Err(DecodeError::OutOfBounds)
        } else {
            Ok(line.substring_char(11, 15))
        }
    }

    /// The 2-character month field, verbatim.
    pub fn month_raw(line: &str) -> (r: Result<&str, DecodeError>)
        ensures
            match r {
                Ok(s) => line@.len() >= 17 && s@ == line@.subrange(15, 17),
                Err(e) => line@.len() < 17 && e == DecodeError::OutOfBounds,
            },
    {
        if line.unicode_len() < 17 {
            Err(DecodeError::OutOfBounds)
        } else {
            Ok(line.substring_char(15, 17))
        }
    }

    /// The 4-character element code field, verbatim.
    pub fn element_raw(line: &str) -> (r: Result<&str, DecodeError>)
        ensures
            match r {
                Ok(s) => line@.len() >= 21 && s@ == line@.subrange(17, 21),
                Err(e) => line@.len() < 21 && e == DecodeError::OutOfBounds,
            },
    {
        if line.unicode_len() < 21 {
            Err(DecodeError::OutOfBounds)
        } else {
            Ok(line.substring_char(17, 21))
        }
    }

    /// The 5-character value field of day `index`, verbatim.
    pub fn value_raw(line: &str, index: usize) -> (r: Result<&str, DecodeError>)
        ensures
            match r {
                Ok(s) => field_valid(Field::Value(index as int)) && line@.len() >= field_end(
                    Field::Value(index as int),
                ) && s@ == line@.subrange(
                    field_start(Field::Value(index as int)),
                    field_end(Field::Value(index as int)),
                ),
                Err(e) => (index > 30 || line@.len() < field_end(Field::Value(index as int)))
                    && e == DecodeError::OutOfBounds,
            },
    {
        if index > 30 {
            return Err(DecodeError::OutOfBounds);
        }
        let start: usize = 21 + TUPLE_OFFSET * index;
        let end: usize = start + 5;
        if line.unicode_len() < end {
            Err(DecodeError::OutOfBounds)
        } else {
            Ok(line.substring_char(start, end))
        }
    }

    /// The 1-character measurement flag field of day `index`, verbatim.
    pub fn measurement_flag_raw(line: &str, index: usize) -> (r: Result<&str, DecodeError>)
        ensures
            match r {
                Ok(s) => field_valid(Field::MeasurementFlag(index as int)) && line@.len()
                    >= field_end(Field::MeasurementFlag(index as int)) && s@ == line@.subrange(
                    field_start(Field::MeasurementFlag(index as int)),
                    field_end(Field::MeasurementFlag(index as int)),
                ),
                Err(e) => (index > 30 || line@.len() < field_end(
                    Field::MeasurementFlag(index as int),
                )) && e == DecodeError::OutOfBounds,
            },
    {
        if index > 30 {
            return Err(DecodeError::OutOfBounds);
        }
        let start: usize = 26 + TUPLE_OFFSET * index;
        let end: usize = start + 1;
        if line.unicode_len() < end {
            Err(DecodeError::OutOfBounds)
        } else {
            Ok(line.substring_char(start, end))
        }
    }

    /// The 1-character quality flag field of day `index`, verbatim.
    pub fn quality_flag_raw(line: &str, index: usize) -> (r: Result<&str, DecodeError>)
        ensures
            match r {
                Ok(s) => field_valid(Field::QualityFlag(index as int)) && line@.len() >= field_end(
                    Field::QualityFlag(index as int),
                ) && s@ == line@.subrange(
                    field_start(Field::QualityFlag(index as int)),
                    field_end(Field::QualityFlag(index as int)),
                ),
                Err(e) => (index > 30 || line@.len() < field_end(Field::QualityFlag(index as int)))
                    && e == DecodeError::OutOfBounds,
            },
    {
        if index > 30 {
            return Err(DecodeError::OutOfBounds);
        }
        let start: usize = 27 + TUPLE_OFFSET * index;
        let end: usize = start + 1;
        if line.unicode_len() < end {
            Err(DecodeError::OutOfBounds)
        } else {
            Ok(line.substring_char(start, end))
        }
    }

    /// The 1-character source flag field of day `index`, verbatim.
    pub fn source_flag_raw(line: &str, index: usize) -> (r: Result<&str, DecodeError>)
        ensures
            match r {
                Ok(s) => field_valid(Field::SourceFlag(index as int)) && line@.len() >= field_end(
                    Field::SourceFlag(index as int),
                ) && s@ == line@.subrange(
                    field_start(Field::SourceFlag(index as int)),
                    field_end(Field::SourceFlag(index as int)),
                ),
                Err(e) => (index > 30 || line@.len() < field_end(Field::SourceFlag(index as int)))
                    && e == DecodeError::OutOfBounds,
            },
    {
        if index > 30 {
            return Err(DecodeError::OutOfBounds);
        }
        let start: usize = 28 + TUPLE_OFFSET * index;
        let end: usize = start + 1;
        if line.unicode_len() < end {
            Err(DecodeError::OutOfBounds)
        } else {
            Ok(line.substring_char(start, end))
        }
    }

    /// The station id, which is the raw field unchanged.
    pub fn station_id(line: &str) -> (r: Result<&str, DecodeError>)
        ensures
            match r {
                Ok(s) => line@.len() >= 11 && s@ == line@.subrange(0, 11),
                Err(e) => line@.len() < 11 && e == DecodeError::OutOfBounds,
            },
    {
        Self::station_id_raw(line)
    }

    /// The year as an integer; spaces anywhere in the field are an error.
    pub fn year(line: &str) -> (r: Result<isize, DecodeError>)
        ensures
            r == spec_year(line@),
    {
        match Self::year_raw(line) {
            Err(e) => Err(e),
            Ok(raw) => parse_year(raw),
        }
    }

    /// The month as an integer; spaces anywhere in the field are an error.
    pub fn month(line: &str) -> (r: Result<isize, DecodeError>)
        ensures
            r == spec_month(line@),
    {
        match Self::month_raw(line) {
            Err(e) => Err(e),
            Ok(raw) => parse_month(raw),
        }
    }

    /// The element type of the record.
    pub fn element(line: &str) -> (r: Result<Element, DecodeError>)
        ensures
            r == spec_element(line@),
    {
        match Self::element_raw(line) {
            Err(e) => Err(e),
            Ok(raw) => classify_element(raw),
        }
    }

    /// Day `index`'s value: absent when the field holds the -9999 sentinel,
    /// otherwise the integer the field holds.
    pub fn value(line: &str, index: usize) -> (r: Result<Option<isize>, DecodeError>)
        ensures
            r == spec_value(line@, index as int),
    {
        match Self::value_raw(line, index) {
            Err(e) => Err(e),
            Ok(raw) => parse_value(raw),
        }
    }

    /// Day `index`'s measurement flag.
    pub fn measurement(line: &str, index: usize) -> (r: Result<Measurement, DecodeError>)
        ensures
            r == spec_measurement(line@, index as int),
    {
        match Self::measurement_flag_raw(line, index) {
            Err(e) => Err(e),
            Ok(raw) => classify_measurement(raw),
        }
    }

    /// Day `index`'s quality flag.
    pub fn quality(line: &str, index: usize) -> (r: Result<Quality, DecodeError>)
        ensures
            r == spec_quality(line@, index as int),
    {
        match Self::quality_flag_raw(line, index) {
            Err(e) => Err(e),
            Ok(raw) => classify_quality(raw),
        }
    }

    /// Day `index`'s source flag.
    pub fn source(line: &str, index: usize) -> (r: Result<Source, DecodeError>)
        ensures
            r == spec_source(line@, index as int),
    {
        match Self::source_flag_raw(line, index) {
            Err(e) => Err(e),
            Ok(raw) => classify_source(raw),
        }
    }
}

/// Round trip: a line that carries an element's code in the element field
/// and one day's rendered (value, flags) tuple in that day's fields decodes
/// back to exactly the tuple it was built from.
pub proof fn lemma_record_round_trip(
    line: Seq<char>,
    e: Element,
    v: int,
    m: Measurement,
    q: Quality,
    s: Source,
    i: int,
)
    requires
        0 <= i <= 30,
        line.len() >= field_end(Field::SourceFlag(i)),
        -10000 < v <= 99999,
        v != ABSENT_SENTINEL,
        line.subrange(field_start(Field::ElementCode), field_end(Field::ElementCode))
            == element_code(e),
        line.subrange(field_start(Field::Value(i)), field_end(Field::Value(i)))
            == render_value(v),
        line[field_start(Field::MeasurementFlag(i))] == measurement_code(m),
        line[field_start(Field::QualityFlag(i))] == quality_code(q),
        line[field_start(Field::SourceFlag(i))] == source_code(s),
    ensures
        spec_element(line) == Ok::<Element, DecodeError>(e),
        spec_value(line, i) == Ok::<Option<isize>, DecodeError>(Some(v as isize)),
        spec_measurement(line, i) == Ok::<Measurement, DecodeError>(m),
        spec_quality(line, i) == Ok::<Quality, DecodeError>(q),
        spec_source(line, i) == Ok::<Source, DecodeError>(s),
{
    lemma_element_code_round_trip(e);
    lemma_render_value_round_trip(v);
    lemma_measurement_code_round_trip(m);
    lemma_quality_code_round_trip(q);
    lemma_source_code_round_trip(s);
}

} // verus!
