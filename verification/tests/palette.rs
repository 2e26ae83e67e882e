use mandelbrot::escape::EscapeResult;
use mandelbrot::palette::{Rgb, colorize, palette_entry};

#[test]
fn bound_is_pure_black() {
    assert_eq!(colorize(EscapeResult::Bound), Rgb { r: 0, g: 0, b: 0 });
}

#[test]
fn first_entry_colour() {
    assert_eq!(colorize(EscapeResult::Escaped(0)), Rgb { r: 42, g: 72, b: 88 });
}

#[test]
fn second_entry_colour() {
    assert_eq!(colorize(EscapeResult::Escaped(1)), Rgb { r: 41, g: 77, b: 93 });
}

#[test]
fn last_reachable_entry_colour() {
    assert_eq!(colorize(EscapeResult::Escaped(25)), Rgb { r: 90, g: 196, b: 137 });
}

#[test]
fn counts_wrap_modulo_26() {
    assert_eq!(
        colorize(EscapeResult::Escaped(26)),
        colorize(EscapeResult::Escaped(0))
    );
    assert_eq!(
        colorize(EscapeResult::Escaped(27)),
        colorize(EscapeResult::Escaped(1))
    );
}

#[test]
fn equal_classes_colour_identically() {
    assert_eq!(
        colorize(EscapeResult::Escaped(3)),
        colorize(EscapeResult::Escaped(3 + 26 * 7))
    );
}

#[test]
fn different_classes_colour_differently() {
    assert_ne!(
        colorize(EscapeResult::Escaped(0)),
        colorize(EscapeResult::Escaped(1))
    );
}

#[test]
fn table_holds_forty_entries() {
    // The tail of the table past index 25 is present though never
    // reached through colorize.
    assert_eq!(palette_entry(26), Rgb { r: 100, g: 201, b: 135 });
    assert_eq!(palette_entry(39), Rgb { r: 250, g: 250, b: 110 });
}
