use samples::formatted::{Complex, Component, Deep, MinMax, Structure};
use samples::text::align_right;

fn component(negative: bool, magnitude: &str) -> Component {
    Component { negative, magnitude: magnitude.to_string() }
}

#[test]
fn complex_both_non_negative() {
    let c = Complex { x: component(false, "3.3"), y: component(false, "7.2") };
    assert_eq!(c.display_text(), "3.3 + 7.2");
}

#[test]
fn complex_negative_imaginary() {
    let c = Complex { x: component(false, "3.3"), y: component(true, "7.2") };
    assert_eq!(c.display_text(), "3.3 + 7.2i");
}

#[test]
fn complex_negative_real() {
    let c = Complex { x: component(true, "3.3"), y: component(false, "7.2") };
    assert_eq!(c.display_text(), "3.3i + 7.2");
}

#[test]
fn complex_both_negative() {
    let c = Complex { x: component(true, "3.3"), y: component(true, "7.2") };
    assert_eq!(c.display_text(), "3.3i + 7.2i");
}

#[test]
fn complex_zero_parts() {
    let c = Complex { x: component(false, "0"), y: component(false, "-0") };
    assert_eq!(c.display_text(), "0 + -0");
}

#[test]
fn width_six_default_alignment() {
    assert_eq!(align_right("1", 6, ' '), "     1");
}

#[test]
fn width_six_zero_fill() {
    assert_eq!(align_right("1", 6, '0'), "000001");
}

#[test]
fn width_narrower_than_text() {
    assert_eq!(align_right("12345", 3, ' '), "12345");
    assert_eq!(align_right("", 0, '*'), "");
    assert_eq!(align_right("ab", 2, '*'), "ab");
}

#[test]
fn structure_debug() {
    assert_eq!(Structure(3).debug_text(), "Structure(3)");
    assert_eq!(Structure(-12).debug_text(), "Structure(-12)");
}

#[test]
fn nested_debug_holds_inner_debug() {
    let inner = Structure(7).debug_text();
    let outer = Deep(Structure(7)).debug_text();
    assert_eq!(outer, "Deep(Structure(7))");
    assert_eq!(outer, format!("Deep({})", inner));
}

#[test]
fn minmax_display_and_debug() {
    let m = MinMax(0, 14);
    assert_eq!(m.display_text(), "0, 14");
    assert_eq!(m.debug_text(), "MinMax(0, 14)");
    assert_eq!(MinMax(-300, 300).display_text(), "-300, 300");
    assert_eq!(MinMax(i64::MIN, i64::MAX).display_text(), "-9223372036854775808, 9223372036854775807");
}
