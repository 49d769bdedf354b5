//! The four code classifiers: total on their domain, failing outside it.

use ghcn_daily::codes::classify_element;
use ghcn_daily::codes::classify_measurement;
use ghcn_daily::codes::classify_quality;
use ghcn_daily::codes::classify_source;
use ghcn_daily::codes::measurement_of;
use ghcn_daily::codes::quality_of;
use ghcn_daily::codes::source_of;
use ghcn_daily::codes::Element;
use ghcn_daily::codes::Measurement;
use ghcn_daily::codes::Quality;
use ghcn_daily::codes::Source;
use ghcn_daily::error::DecodeError;

#[test]
fn element_codes_classify() {
    assert_eq!(classify_element("PRCP"), Ok(Element::Precipitation));
    assert_eq!(classify_element("SNOW"), Ok(Element::Snowfall));
    assert_eq!(classify_element("SNWD"), Ok(Element::SnowDepth));
    assert_eq!(classify_element("TMAX"), Ok(Element::MaxTemp));
    assert_eq!(classify_element("TMIN"), Ok(Element::MinTemp));
    assert_eq!(classify_element("TAVG"), Ok(Element::AvgTemp));
}

#[test]
fn unknown_element_codes_fail() {
    assert_eq!(classify_element("XXXX"), Err(DecodeError::UnknownCode));
    // Legal codes of the format that this decoder leaves out still fail.
    assert_eq!(classify_element("AWND"), Err(DecodeError::UnknownCode));
    assert_eq!(classify_element("WT01"), Err(DecodeError::UnknownCode));
    // Case matters, and so does the length.
    assert_eq!(classify_element("prcp"), Err(DecodeError::UnknownCode));
    assert_eq!(classify_element("PRC"), Err(DecodeError::UnknownCode));
    assert_eq!(classify_element("PRCPX"), Err(DecodeError::UnknownCode));
    assert_eq!(classify_element(""), Err(DecodeError::UnknownCode));
}

#[test]
fn measurement_codes_classify() {
    let table: [(char, Measurement); 10] = [
        (' ', Measurement::Blank),
        ('B', Measurement::TwoTotals),
        ('D', Measurement::FourTotals),
        ('H', Measurement::Hourly),
        ('K', Measurement::ConvertedKnots),
        ('L', Measurement::Lagged),
        ('O', Measurement::ConvertedOktas),
        ('P', Measurement::MissingPresumedZero),
        ('T', Measurement::Trace),
        ('W', Measurement::Converted16PointWBAN),
    ];
    for &(c, m) in &table {
        assert_eq!(measurement_of(c), Ok(m));
        let s = String::from(c);
        assert_eq!(classify_measurement(&s), Ok(m));
    }
}

#[test]
fn unknown_measurement_codes_fail() {
    assert_eq!(measurement_of('A'), Err(DecodeError::UnknownCode));
    assert_eq!(measurement_of('b'), Err(DecodeError::UnknownCode));
    assert_eq!(classify_measurement(""), Err(DecodeError::UnknownCode));
    assert_eq!(classify_measurement("BB"), Err(DecodeError::UnknownCode));
}

#[test]
fn quality_codes_classify() {
    let table: [(char, Quality); 15] = [
        (' ', Quality::Blank),
        ('D', Quality::FailedDuplicate),
        ('G', Quality::FailedGap),
        ('I', Quality::FailedInternalConsistency),
        ('K', Quality::FailedStreak),
        ('L', Quality::FailedMultidayPeriod),
        ('M', Quality::FailedMegaconsistency),
        ('N', Quality::FailedNaught),
        ('O', Quality::FailedClimatologicalOutlier),
        ('R', Quality::FailedLaggedRange),
        ('S', Quality::FailedSpatialConsistency),
        ('T', Quality::FailedTemporalConsistency),
        ('W', Quality::TooWarmForSnow),
        ('X', Quality::FailedBounds),
        ('Z', Quality::FlaggedDatzilla),
    ];
    for &(c, q) in &table {
        assert_eq!(quality_of(c), Ok(q));
        let s = String::from(c);
        assert_eq!(classify_quality(&s), Ok(q));
    }
}

#[test]
fn unknown_quality_codes_fail() {
    assert_eq!(quality_of('A'), Err(DecodeError::UnknownCode));
    assert_eq!(quality_of('d'), Err(DecodeError::UnknownCode));
    assert_eq!(quality_of(','), Err(DecodeError::UnknownCode));
    assert_eq!(classify_quality("DD"), Err(DecodeError::UnknownCode));
    assert_eq!(classify_quality(""), Err(DecodeError::UnknownCode));
}

#[test]
fn source_codes_classify() {
    assert_eq!(source_of(' '), Ok(Source::Blank));
    assert_eq!(source_of('E'), Ok(Source::ECAandD));
    assert_eq!(source_of('S'), Ok(Source::DSI9618));
    assert_eq!(classify_source(" "), Ok(Source::Blank));
    assert_eq!(classify_source("E"), Ok(Source::ECAandD));
    assert_eq!(classify_source("S"), Ok(Source::DSI9618));
}

#[test]
fn unimplemented_source_codes_fail() {
    // These are legal codes of the format, deliberately left out of this
    // decoder's scope: they must fail, not fall back to anything.
    for c in ['Z', 'R', '0', '6', 'C', 'X', 'W', 'K', '7', 'F', 'B', 'M', 'r', 'z', 'u', 'b',
        's', 'a', 'G', 'Q', 'I', 'A', 'N', 'T', 'U', 'H'] {
        assert_eq!(source_of(c), Err(DecodeError::UnknownCode));
    }
    // Lower-case 'e' is not the ECA&D code, and multi-character strings fail.
    assert_eq!(source_of('e'), Err(DecodeError::UnknownCode));
    assert_eq!(classify_source("ES"), Err(DecodeError::UnknownCode));
    assert_eq!(classify_source(""), Err(DecodeError::UnknownCode));
}
