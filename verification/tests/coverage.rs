//! The layout table: the raw fields tile a full record without gaps.

use ghcn_daily::line::DlyLine;

/// A 269-character line whose characters cycle, so that any slicing mistake
/// would show up as a mismatched substring.
fn patterned_line() -> String {
    let alphabet: Vec<char> = ('A'..='Z').collect();
    let mut line = String::new();
    for k in 0..269 {
        line.push(alphabet[k % alphabet.len()]);
    }
    line
}

#[test]
fn raw_fields_tile_the_whole_record() {
    // Concatenating the header fields and all 31 day tuples, in layout
    // order, rebuilds the record exactly: no gaps, no overlaps.
    let line = patterned_line();
    let mut rebuilt = String::new();
    rebuilt.push_str(DlyLine::station_id_raw(&line).unwrap());
    rebuilt.push_str(DlyLine::year_raw(&line).unwrap());
    rebuilt.push_str(DlyLine::month_raw(&line).unwrap());
    rebuilt.push_str(DlyLine::element_raw(&line).unwrap());
    for index in 0..31 {
        rebuilt.push_str(DlyLine::value_raw(&line, index).unwrap());
        rebuilt.push_str(DlyLine::measurement_flag_raw(&line, index).unwrap());
        rebuilt.push_str(DlyLine::quality_flag_raw(&line, index).unwrap());
        rebuilt.push_str(DlyLine::source_flag_raw(&line, index).unwrap());
    }
    assert_eq!(rebuilt, line);
}

#[test]
fn raw_fields_have_their_documented_widths() {
    let line = patterned_line();
    assert_eq!(DlyLine::station_id_raw(&line).unwrap().len(), 11);
    assert_eq!(DlyLine::year_raw(&line).unwrap().len(), 4);
    assert_eq!(DlyLine::month_raw(&line).unwrap().len(), 2);
    assert_eq!(DlyLine::element_raw(&line).unwrap().len(), 4);
    for index in 0..31 {
        assert_eq!(DlyLine::value_raw(&line, index).unwrap().len(), 5);
        assert_eq!(DlyLine::measurement_flag_raw(&line, index).unwrap().len(), 1);
        assert_eq!(DlyLine::quality_flag_raw(&line, index).unwrap().len(), 1);
        assert_eq!(DlyLine::source_flag_raw(&line, index).unwrap().len(), 1);
    }
}

#[test]
fn day_tuples_sit_at_eight_character_strides() {
    // Day i's value field starts at 21 + 8 * i: check the actual content
    // against direct byte slices of the line.
    let line = patterned_line();
    for index in 0..31 {
        let start = 21 + 8 * index;
        assert_eq!(DlyLine::value_raw(&line, index).unwrap(), &line[start..start + 5]);
        assert_eq!(
            DlyLine::measurement_flag_raw(&line, index).unwrap(),
            &line[start + 5..start + 6]
        );
        assert_eq!(DlyLine::quality_flag_raw(&line, index).unwrap(), &line[start + 6..start + 7]);
        assert_eq!(DlyLine::source_flag_raw(&line, index).unwrap(), &line[start + 7..start + 8]);
    }
}
