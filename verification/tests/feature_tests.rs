use svg_rs::numfmt::i64_to_string;
use svg_rs::numfmt::u128_to_string;
use svg_rs::textops::contains_str;
use svg_rs::textops::join_tokens;
use svg_rs::textops::replace_str;
use svg_rs::textops::split_tokens;
use svg_rs::textops::trim_str;
use svg_rs::Svg;

#[test]
fn test_empty_document_serialization() {
    let svg = Svg::new(100, 200);
    assert_eq!(
        svg.to_string(),
        "<svg width=\"100\" height=\"200\" xmlns=\"http://www.w3.org/2000/svg\">\n</svg>"
    );
}

#[test]
fn test_rect_exact_serialization() {
    let mut svg = Svg::new(100, 100);
    svg.rect(50, 30).fill("#ff0000").move_to(10, 20);
    let output = svg.to_string();
    assert!(output.contains("<rect width=\"50\" height=\"30\" fill=\"#ff0000\" x=\"10\" y=\"20\"/>"));
}

#[test]
fn test_circle_nested_in_transformed_group() {
    let mut svg = Svg::new(100, 100);
    let group = svg.group();
    group.transform("rotate(30)");
    group.circle(20);

    let output = svg.to_string();
    assert!(output.contains("<g transform=\"rotate(30)\">"));
    assert!(output.contains("<circle r=\"20\"/>"));
    assert!(output.contains("</g>"));
}

#[test]
fn test_viewbox_exact_serialization() {
    let mut svg = Svg::new(800, 600);
    svg.viewbox(-5, 0, 400, 300);
    assert_eq!(
        svg.to_string(),
        "<svg width=\"800\" height=\"600\" viewBox=\"-5 0 400 300\" xmlns=\"http://www.w3.org/2000/svg\">\n</svg>"
    );
}

#[test]
fn test_text_element_carries_content() {
    let mut svg = Svg::new(100, 100);
    svg.text("Hello").move_to(5, 6);
    let output = svg.to_string();
    assert!(output.contains("<text x=\"5\" y=\"6\">Hello</text>"));
}

#[test]
fn test_attribute_overwrite_keeps_one_value() {
    let mut svg = Svg::new(100, 100);
    let rect = svg.rect(10, 10);
    rect.fill("#111111");
    rect.fill("#222222");
    assert_eq!(rect.attr("fill").unwrap(), "#222222");
    let output = svg.to_string();
    assert!(output.contains("fill=\"#222222\""));
    assert!(!output.contains("#111111"));
}

#[test]
fn test_transform_helpers_overwrite() {
    let mut svg = Svg::new(100, 100);
    let rect = svg.rect(10, 10);
    rect.rotate(45).translate(3, 4);
    assert_eq!(rect.attr("transform").unwrap(), "translate(3, 4)");
    rect.skew_x(-7);
    assert_eq!(rect.attr("transform").unwrap(), "skewX(-7)");
    rect.scale(2, -2);
    assert_eq!(rect.attr("transform").unwrap(), "scale(2, -2)");
}

#[test]
fn test_toggle_class_round_trip() {
    let mut svg = Svg::new(100, 100);
    let rect = svg.rect(10, 10);
    rect.toggle_class("active");
    assert!(rect.has_class("active"));
    rect.toggle_class("active");
    assert!(!rect.has_class("active"));
    assert!(rect.attr("class").is_none());
}

#[test]
fn test_add_class_keeps_duplicates() {
    let mut svg = Svg::new(100, 100);
    let rect = svg.rect(10, 10);
    rect.add_class("a").add_class("b").add_class("a");
    assert_eq!(rect.attr("class").unwrap(), "a b a");
    rect.remove_class("a");
    assert_eq!(rect.attr("class").unwrap(), "b");
}

#[test]
fn test_hide_and_show() {
    let mut svg = Svg::new(100, 100);
    let rect = svg.rect(10, 10);
    assert!(rect.visible());
    rect.hide_element();
    assert!(!rect.visible());
    assert_eq!(rect.attr("style").unwrap(), "display: none");
    rect.show();
    assert!(rect.visible());
    assert!(rect.attr("style").is_none());
}

#[test]
fn test_show_keeps_other_styles() {
    let mut svg = Svg::new(100, 100);
    let rect = svg.rect(10, 10);
    rect.style("fill: red; display: none");
    assert!(!rect.visible());
    rect.show();
    assert_eq!(rect.attr("style").unwrap(), "fill: red;");
    assert!(rect.visible());
}

#[test]
fn test_decimal_formatting() {
    assert_eq!(u128_to_string(0), "0");
    assert_eq!(u128_to_string(7), "7");
    assert_eq!(u128_to_string(1234567890), "1234567890");
    assert_eq!(i64_to_string(-42), "-42");
    assert_eq!(i64_to_string(i64::MIN), "-9223372036854775808");
    assert_eq!(i64_to_string(i64::MAX), "9223372036854775807");
}

#[test]
fn test_token_splitting_and_joining() {
    let toks = split_tokens("  one  two\tthree \n");
    assert_eq!(toks, vec!["one", "two", "three"]);
    assert_eq!(join_tokens(&toks), "one two three");
    assert_eq!(split_tokens("").len(), 0);
}

#[test]
fn test_replace_and_trim() {
    assert_eq!(replace_str("a display: none b", "display: none", ""), "a  b");
    assert_eq!(replace_str("ababab", "ab", "x"), "xxx");
    assert_eq!(trim_str("  padded  "), "padded");
    assert_eq!(trim_str("   "), "");
    assert!(contains_str("fill: red; display: none", "display: none"));
    assert!(!contains_str("fill: red", "display: none"));
}

#[test]
fn test_marker_and_pattern_defaults() {
    let mut svg = Svg::new(100, 100);
    svg.marker("arrow", 10, 10);
    svg.pattern("dots", 4, 4);
    let output = svg.to_string();
    assert!(output.contains("refX=\"0\""));
    assert!(output.contains("refY=\"0\""));
    assert!(output.contains("orient=\"auto\""));
    assert!(output.contains("patternUnits=\"userSpaceOnUse\""));
}

#[test]
fn test_use_and_textpath_prefix_href() {
    let mut svg = Svg::new(100, 100);
    svg.use_element("shape");
    let text = svg.text("");
    text.text_path("curve", "along");
    let output = svg.to_string();
    assert!(output.contains("<use href=\"#shape\"/>"));
    assert!(output.contains("href=\"#curve\""));
}
