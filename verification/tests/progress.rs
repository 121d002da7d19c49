use flint::progress::parse_dd_progress;

#[test]
fn parse_dd_progress_modern() {
    let line = "12345678 bytes (12 MB, 12 MiB) copied, 0.5 s, 24 MB/s";
    assert_eq!(parse_dd_progress(line), Some(12345678));
}

#[test]
fn parse_dd_progress_classic() {
    let line = "12345678 bytes transferred";
    assert_eq!(parse_dd_progress(line), Some(12345678));
}

#[test]
fn parse_dd_progress_copied() {
    let line = "12345678 bytes copied";
    assert_eq!(parse_dd_progress(line), Some(12345678));
}

#[test]
fn parse_dd_progress_empty() {
    assert_eq!(parse_dd_progress(""), None);
}

#[test]
fn parse_dd_progress_non_match() {
    let line = "0+1 records in";
    assert_eq!(parse_dd_progress(line), None);
}

#[test]
fn white_space_around_a_line_is_ignored() {
    assert_eq!(parse_dd_progress("\t 42 bytes (42 B) copied \u{3000}"), Some(42));
}

#[test]
fn the_first_marker_decides_even_where_no_number_precedes_it() {
    assert_eq!(parse_dd_progress("x bytes (1) 7 bytes copied"), None);
    assert_eq!(parse_dd_progress("7 bytes copied, 5 bytes ("), None);
    assert_eq!(parse_dd_progress("+7 bytes copied"), Some(7));
    assert_eq!(parse_dd_progress("18446744073709551616 bytes copied"), None);
    assert_eq!(parse_dd_progress("18446744073709551615 bytes copied"), Some(u64::MAX));
}
