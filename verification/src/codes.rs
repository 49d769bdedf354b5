//! Closed code sets: element types and the three per-day flags.
//!
//! Each classifier is an exact lookup: it succeeds on the codes listed here
//! and fails with `UnknownCode` on every other string, including codes that
//! the source format documents but this decoder deliberately leaves out
//! (most element codes, and 26 of the 29 legal source codes).

use vstd::prelude::*;
use vstd::string::StrSliceExecFns;

use crate::error::DecodeError;

verus! {

/// The meteorological quantity a record measures.
#[derive(Debug, Copy, Clone, PartialEq, Eq)]
pub enum Element {
    /// PRCP: precipitation, in tenths of a millimetre.
    Precipitation,
    /// SNOW: snowfall, in millimetres.
    Snowfall,
    /// SNWD: snow depth, in millimetres.
    SnowDepth,
    /// TMAX: maximum temperature, in tenths of a degree Celsius.
    MaxTemp,
    /// TMIN: minimum temperature, in tenths of a degree Celsius.
    MinTemp,
    /// TAVG: average temperature, in tenths of a degree Celsius.
    AvgTemp,
}

/// How a day's value was measured or derived.
#[derive(Debug, Copy, Clone, PartialEq, Eq)]
pub enum Measurement {
    /// Space: no measurement information applies.
    Blank,
    /// B: precipitation total formed from two 12-hour totals.
    TwoTotals,
    /// D: precipitation total formed from four six-hour totals.
    FourTotals,
    /// H: highest or lowest hourly temperature, or average of hourly values.
    Hourly,
    /// K: converted from knots.
    ConvertedKnots,
    /// L: temperature appears lagged with respect to the observation hour.
    Lagged,
    /// O: converted from oktas.
    ConvertedOktas,
    /// P: identified as "missing presumed zero".
    MissingPresumedZero,
    /// T: trace of precipitation, snowfall, or snow depth.
    Trace,
    /// W: converted from a 16-point WBAN wind-direction code.
    Converted16PointWBAN,
}

/// Which quality-assurance check, if any, a day's value failed.
#[derive(Debug, Copy, Clone, PartialEq, Eq)]
pub enum Quality {
    /// Space: did not fail any quality-assurance check.
    Blank,
    /// D: failed the duplicate check.
    FailedDuplicate,
    /// G: failed the gap check.
    FailedGap,
    /// I: failed the internal-consistency check.
    FailedInternalConsistency,
    /// K: failed the streak or frequent-value check.
    FailedStreak,
    /// L: failed the multiday-period-length check.
    FailedMultidayPeriod,
    /// M: failed the megaconsistency check.
    FailedMegaconsistency,
    /// N: failed the naught check.
    FailedNaught,
    /// O: failed the climatological-outlier check.
    FailedClimatologicalOutlier,
    /// R: failed the lagged-range check.
    FailedLaggedRange,
    /// S: failed the spatial-consistency check.
    FailedSpatialConsistency,
    /// T: failed the temporal-consistency check.
    FailedTemporalConsistency,
    /// W: temperature too warm for snow.
    TooWarmForSnow,
    /// X: failed the bounds check.
    FailedBounds,
    /// Z: flagged by an official Datzilla investigation.
    FlaggedDatzilla,
}

/// Which archive supplied a day's value.  Only three of the 29 legal codes
/// are implemented; the rest fail to classify by design.
#[derive(Debug, Copy, Clone, PartialEq, Eq)]
pub enum Source {
    /// Space: no source, the value is missing.
    Blank,
    /// E: European Climate Assessment and Dataset.
    ECAandD,
    /// S: Global Summary of the Day (DSI-9618).
    DSI9618,
}

/// What classifying a four-character element code yields.
pub open spec fn spec_classify_element(s: Seq<char>) -> Result<Element, DecodeError> {
    if s == "PRCP"@ {
        Ok(Element::Precipitation)
    } else if s == "SNOW"@ {
        Ok(Element::Snowfall)
    } else if s == "SNWD"@ {
        Ok(Element::SnowDepth)
    } else if s == "TMAX"@ {
        Ok(Element::MaxTemp)
    } else if s == "TMIN"@ {
        Ok(Element::MinTemp)
    } else if s == "TAVG"@ {
        Ok(Element::AvgTemp)
    } else {
        Err(DecodeError::UnknownCode)
    }
}

/// What classifying one measurement-flag character yields.
pub open spec fn spec_measurement_of(c: char) -> Result<Measurement, DecodeError> {
    if c == ' ' {
        Ok(Measurement::Blank)
    } else if c == 'B' {
        Ok(Measurement::TwoTotals)
    } else if c == 'D' {
        Ok(Measurement::FourTotals)
    } else if c == 'H' {
        Ok(Measurement::Hourly)
    } else if c == 'K' {
        Ok(Measurement::ConvertedKnots)
    } else if c == 'L' {
        Ok(Measurement::Lagged)
    } else if c == 'O' {
        Ok(Measurement::ConvertedOktas)
    } else if c == 'P' {
        Ok(Measurement::MissingPresumedZero)
    } else if c == 'T' {
        Ok(Measurement::Trace)
    } else if c == 'W' {
        Ok(Measurement::Converted16PointWBAN)
    } else {
        Err(DecodeError::UnknownCode)
    }
}

pub open spec fn spec_classify_measurement(s: Seq<char>) -> Result<Measurement, DecodeError> {
    if s.len() == 1 {
        spec_measurement_of(s[0])
    } else {
        Err(DecodeError::UnknownCode)
    }
}

/// What classifying one quality-flag character yields.
pub open spec fn spec_quality_of(c: char) -> Result<Quality, DecodeError> {
    if c == ' ' {
        Ok(Quality::Blank)
    } else if c == 'D' {
        Ok(Quality::FailedDuplicate)
    } else if c == 'G' {
        Ok(Quality::FailedGap)
    } else if c == 'I' {
        Ok(Quality::FailedInternalConsistency)
    } else if c == 'K' {
        Ok(Quality::FailedStreak)
    } else if c == 'L' {
        Ok(Quality::FailedMultidayPeriod)
    } else if c == 'M' {
        Ok(Quality::FailedMegaconsistency)
    } else if c == 'N' {
        Ok(Quality::FailedNaught)
    } else if c == 'O' {
        Ok(Quality::FailedClimatologicalOutlier)
    } else if c == 'R' {
        Ok(Quality::FailedLaggedRange)
    } else if c == 'S' {
        Ok(Quality::FailedSpatialConsistency)
    } else if c == 'T' {
        Ok(Quality::FailedTemporalConsistency)
    } else if c == 'W' {
        Ok(Quality::TooWarmForSnow)
    } else if c == 'X' {
        Ok(Quality::FailedBounds)
    } else if c == 'Z' {
        Ok(Quality::FlaggedDatzilla)
    } else {
        Err(DecodeError::UnknownCode)
    }
}

pub open spec fn spec_classify_quality(s: Seq<char>) -> Result<Quality, DecodeError> {
    if s.len() == 1 {
        spec_quality_of(s[0])
    } else {
        Err(DecodeError::UnknownCode)
    }
}

/// What classifying one source-flag character yields.
pub open spec fn spec_source_of(c: char) -> Result<Source, DecodeError> {
    if c == ' ' {
        Ok(Source::Blank)
    } else if c == 'E' {
        Ok(Source::ECAandD)
    } else if c == 'S' {
        Ok(Source::DSI9618)
    } else {
        Err(DecodeError::UnknownCode)
    }
}

pub open spec fn spec_classify_source(s: Seq<char>) -> Result<Source, DecodeError> {
    if s.len() == 1 {
        spec_source_of(s[0])
    } else {
        Err(DecodeError::UnknownCode)
    }
}

/// Classifies a four-character element code; every string but the six known
/// codes fails with `UnknownCode`.
pub fn classify_element(raw: &str) -> (r: Result<Element, DecodeError>)
    ensures
        r == spec_classify_element(raw@),
{
    proof {
        reveal_strlit("PRCP");
        reveal_strlit("SNOW");
        reveal_strlit("SNWD");
        reveal_strlit("TMAX");
        reveal_strlit("TMIN");
        reveal_strlit("TAVG");
    }
    let n: usize = raw.unicode_len();
    if n != 4 {
        return Err(DecodeError::UnknownCode);
    }
    let c0: char = raw.get_char(0);
    let c1: char = raw.get_char(1);
    let c2: char = raw.get_char(2);
    let c3: char = raw.get_char(3);
    if c0 == 'P' && c1 == 'R' && c2 == 'C' && c3 == 'P' {
        proof {
            assert(raw@ =~= "PRCP"@);
        }
        Ok(Element::Precipitation)
    } else if c0 == 'S' && c1 == 'N' && c2 == 'O' && c3 == 'W' {
        proof {
            assert(raw@ =~= "SNOW"@);
        }
        Ok(Element::Snowfall)
    } else if c0 == 'S' && c1 == 'N' && c2 == 'W' && c3 == 'D' {
        proof {
            assert(raw@ =~= "SNWD"@);
        }
        Ok(Element::SnowDepth)
    } else if c0 == 'T' && c1 == 'M' && c2 == 'A' && c3 == 'X' {
        proof {
            assert(raw@ =~= "TMAX"@);
        }
        Ok(Element::MaxTemp)
    } else if c0 == 'T' && c1 == 'M' && c2 == 'I' && c3 == 'N' {
        proof {
            assert(raw@ =~= "TMIN"@);
        }
        Ok(Element::MinTemp)
    } else if c0 == 'T' && c1 == 'A' && c2 == 'V' && c3 == 'G' {
        proof {
            assert(raw@ =~= "TAVG"@);
        }
        Ok(Element::AvgTemp)
    } else {
        Err(DecodeError::UnknownCode)
    }
}

/// Classifies a one-character measurement flag.
pub fn classify_measurement(raw: &str) -> (r: Result<Measurement, DecodeError>)
    ensures
        r == spec_classify_measurement(raw@),
{
    if raw.unicode_len() != 1 {
        return Err(DecodeError::UnknownCode);
    }
    let c: char = raw.get_char(0);
    measurement_of(c)
}

/// Classifies one measurement-flag character.
pub fn measurement_of(c: char) -> (r: Result<Measurement, DecodeError>)
    ensures
        r == spec_measurement_of(c),
{
    if c == ' ' {
        Ok(Measurement::Blank)
    } else if c == 'B' {
        Ok(Measurement::TwoTotals)
    } else if c == 'D' {
        Ok(Measurement::FourTotals)
    } else if c == 'H' {
        Ok(Measurement::Hourly)
    } else if c == 'K' {
        Ok(Measurement::ConvertedKnots)
    } else if c == 'L' {
        Ok(Measurement::Lagged)
    } else if c == 'O' {
        Ok(Measurement::ConvertedOktas)
    } else if c == 'P' {
        Ok(Measurement::MissingPresumedZero)
    } else if c == 'T' {
        Ok(Measurement::Trace)
    } else if c == 'W' {
        Ok(Measurement::Converted16PointWBAN)
    } else {
        Err(DecodeError::UnknownCode)
    }
}

/// Classifies a one-character quality flag.
pub fn classify_quality(raw: &str) -> (r: Result<Quality, DecodeError>)
    ensures
        r == spec_classify_quality(raw@),
{
    if raw.unicode_len() != 1 {
        return Err(DecodeError::UnknownCode);
    }
    let c: char = raw.get_char(0);
    quality_of(c)
}

/// Classifies one quality-flag character.
pub fn quality_of(c: char) -> (r: Result<Quality, DecodeError>)
    ensures
        r == spec_quality_of(c),
{
    if c == ' ' {
        Ok(Quality::Blank)
    } else if c == 'D' {
        Ok(Quality::FailedDuplicate)
    } else if c == 'G' {
        Ok(Quality::FailedGap)
    } else if c == 'I' {
        Ok(Quality::FailedInternalConsistency)
    } else if c == 'K' {
        Ok(Quality::FailedStreak)
    } else if c == 'L' {
        Ok(Quality::FailedMultidayPeriod)
    } else if c == 'M' {
        Ok(Quality::FailedMegaconsistency)
    } else if c == 'N' {
        Ok(Quality::FailedNaught)
    } else if c == 'O' {
        Ok(Quality::FailedClimatologicalOutlier)
    } else if c == 'R' {
        Ok(Quality::FailedLaggedRange)
    } else if c == 'S' {
        Ok(Quality::FailedSpatialConsistency)
    } else if c == 'T' {
        Ok(Quality::FailedTemporalConsistency)
    } else if c == 'W' {
        Ok(Quality::TooWarmForSnow)
    } else if c == 'X' {
        Ok(Quality::FailedBounds)
    } else if c == 'Z' {
        Ok(Quality::FlaggedDatzilla)
    } else {
        Err(DecodeError::UnknownCode)
    }
}

/// Classifies a one-character source flag; the 26 legal but unimplemented
/// codes fail like any unknown character.
pub fn classify_source(raw: &str) -> (r: Result<Source, DecodeError>)
    ensures
        r == spec_classify_source(raw@),
{
    if raw.unicode_len() != 1 {
        return Err(DecodeError::UnknownCode);
    }
    let c: char = raw.get_char(0);
    source_of(c)
}

/// Classifies one source-flag character.
pub fn source_of(c: char) -> (r: Result<Source, DecodeError>)
    ensures
        r == spec_source_of(c),
{
    if c == ' ' {
        Ok(Source::Blank)
    } else if c == 'E' {
        Ok(Source::ECAandD)
    } else if c == 'S' {
        Ok(Source::DSI9618)
    } else {
        Err(DecodeError::UnknownCode)
    }
}

/// The four-character code that names an element.
pub open spec fn element_code(e: Element) -> Seq<char> {
    match e {
        Element::Precipitation => "PRCP"@,
        Element::Snowfall => "SNOW"@,
        Element::SnowDepth => "SNWD"@,
        Element::MaxTemp => "TMAX"@,
        Element::MinTemp => "TMIN"@,
        Element::AvgTemp => "TAVG"@,
    }
}

/// The character that names a measurement flag.
pub open spec fn measurement_code(m: Measurement) -> char {
    match m {
        Measurement::Blank => ' ',
        Measurement::TwoTotals => 'B',
        Measurement::FourTotals => 'D',
        Measurement::Hourly => 'H',
        Measurement::ConvertedKnots => 'K',
        Measurement::Lagged => 'L',
        Measurement::ConvertedOktas => 'O',
        Measurement::MissingPresumedZero => 'P',
        Measurement::Trace => 'T',
        Measurement::Converted16PointWBAN => 'W',
    }
}

/// The character that names a quality flag.
pub open spec fn quality_code(q: Quality) -> char {
    match q {
        Quality::Blank => ' ',
        Quality::FailedDuplicate => 'D',
        Quality::FailedGap => 'G',
        Quality::FailedInternalConsistency => 'I',
        Quality::FailedStreak => 'K',
        Quality::FailedMultidayPeriod => 'L',
        Quality::FailedMegaconsistency => 'M',
        Quality::FailedNaught => 'N',
        Quality::FailedClimatologicalOutlier => 'O',
        Quality::FailedLaggedRange => 'R',
        Quality::FailedSpatialConsistency => 'S',
        Quality::FailedTemporalConsistency => 'T',
        Quality::TooWarmForSnow => 'W',
        Quality::FailedBounds => 'X',
        Quality::FlaggedDatzilla => 'Z',
    }
}

/// The character that names a source flag.
pub open spec fn source_code(s: Source) -> char {
    match s {
        Source::Blank => ' ',
        Source::ECAandD => 'E',
        Source::DSI9618 => 'S',
    }
}

/// Every element classifies back from its own code: the classifier is a
/// left inverse of the code table.
pub proof fn lemma_element_code_round_trip(e: Element)
    ensures
        spec_classify_element(element_code(e)) == Ok::<Element, DecodeError>(e),
{
    reveal_strlit("PRCP");
    reveal_strlit("SNOW");
    reveal_strlit("SNWD");
    reveal_strlit("TMAX");
    reveal_strlit("TMIN");
    reveal_strlit("TAVG");
    assert("PRCP"@ =~= seq!['P', 'R', 'C', 'P']);
    assert("SNOW"@ =~= seq!['S', 'N', 'O', 'W']);
    assert("SNWD"@ =~= seq!['S', 'N', 'W', 'D']);
    assert("TMAX"@ =~= seq!['T', 'M', 'A', 'X']);
    assert("TMIN"@ =~= seq!['T', 'M', 'I', 'N']);
    assert("TAVG"@ =~= seq!['T', 'A', 'V', 'G']);
}

/// Every measurement flag classifies back from its own character.
pub proof fn lemma_measurement_code_round_trip(m: Measurement)
    ensures
        spec_measurement_of(measurement_code(m)) == Ok::<Measurement, DecodeError>(m),
{
}

/// Every quality flag classifies back from its own character.
pub proof fn lemma_quality_code_round_trip(q: Quality)
    ensures
        spec_quality_of(quality_code(q)) == Ok::<Quality, DecodeError>(q),
{
}

/// Every source flag classifies back from its own character.
pub proof fn lemma_source_code_round_trip(s: Source)
    ensures
        spec_source_of(source_code(s)) == Ok::<Source, DecodeError>(s),
{
}

} // verus!
