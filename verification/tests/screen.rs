//! Tests for the terminal-size types and the query-outcome logic.

use tutil::screen::Height;
use tutil::screen::Width;
use tutil::screen::height;
use tutil::screen::width;

#[test]
fn width_of_reported_size() {
    assert_eq!(width(Some((80, 24))), Some(Width(80)));
    assert_eq!(width(Some((0, 0))), Some(Width(0)));
    assert_eq!(width(Some((65535, 1))), Some(Width(65535)));
}

#[test]
fn width_of_failed_query() {
    assert_eq!(width(None), None);
}

#[test]
fn height_of_reported_size() {
    assert_eq!(height(Some((80, 24))), Some(Height(24)));
    assert_eq!(height(Some((0, 0))), Some(Height(0)));
    assert_eq!(height(Some((1, 65535))), Some(Height(65535)));
}

#[test]
fn height_of_failed_query() {
    assert_eq!(height(None), None);
}

#[test]
fn dimensions_render_as_decimal_text() {
    assert_eq!(Width(10).to_string(), "10");
    assert_eq!(Height(10).to_string(), "10");
    assert_eq!(Width(0).to_string(), "0");
    assert_eq!(Height(7).to_string(), "7");
    assert_eq!(Width(305).to_string(), "305");
    assert_eq!(Height(65535).to_string(), "65535");
}
