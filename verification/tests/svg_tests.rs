use svg_rs::Svg;

#[test]
fn test_svg_creation() {
    let svg = Svg::new(100, 200);
    let output = svg.to_string();
    assert!(output.contains("width=\"100\""));
    assert!(output.contains("height=\"200\""));
    assert!(output.contains("xmlns=\"http://www.w3.org/2000/svg\""));
}

#[test]
fn test_rect_creation() {
    let mut svg = Svg::new(100, 100);
    svg.rect(50, 30).fill("#ff0000").move_to(10, 20);

    let output = svg.to_string();
    assert!(output.contains("rect"));
    assert!(output.contains("width=\"50\""));
    assert!(output.contains("height=\"30\""));
    assert!(output.contains("fill=\"#ff0000\""));
    assert!(output.contains("x=\"10\""));
    assert!(output.contains("y=\"20\""));
}

#[test]
fn test_circle_creation() {
    let mut svg = Svg::new(100, 100);
    svg.circle(25).fill("#00ff00").center(50, 60);

    let output = svg.to_string();
    assert!(output.contains("circle"));
    assert!(output.contains("r=\"25\""));
    assert!(output.contains("fill=\"#00ff00\""));
    assert!(output.contains("cx=\"50\""));
    assert!(output.contains("cy=\"60\""));
}

#[test]
fn test_transforms() {
    let mut svg = Svg::new(100, 100);
    svg.rect(20, 20).move_to(10, 10).rotate(45);

    let output = svg.to_string();
    assert!(output.contains("transform=\"rotate(45)\""));
}

#[test]
fn test_group() {
    let mut svg = Svg::new(200, 200);
    let group = svg.group();
    group.rect(50, 50).fill("#red").move_to(0, 0);

    let output = svg.to_string();
    assert!(output.contains("<g>"));
    assert!(output.contains("</g>"));
    assert!(output.contains("rect"));
}

#[test]
fn test_gradient() {
    let mut svg = Svg::new(200, 200);
    let defs = svg.defs();
    let gradient = defs.linear_gradient("test");
    gradient.stop("0%", "#ff0000");

    let output = svg.to_string();
    assert!(output.contains("defs"));
    assert!(output.contains("linearGradient"));
    assert!(output.contains("stop"));
}

#[test]
fn test_animation() {
    let mut svg = Svg::new(100, 100);
    svg.circle(25).center(50, 50).animate_attr("r", "25", "50", 2);

    let output = svg.to_string();
    assert!(output.contains("animate"));
    assert!(output.contains("attributeName=\"r\""));
}

#[test]
fn test_css_classes() {
    let mut svg = Svg::new(100, 100);
    svg.rect(50, 50).class("primary").add_class("highlight").move_to(10, 10);

    let output = svg.to_string();
    assert!(output.contains("class=\"primary highlight\""));
}

#[test]
fn test_mask_and_clip() {
    let mut svg = Svg::new(200, 200);
    let defs = svg.defs();
    defs.add_child(
        "mask",
        vec![("id".to_string(), "testMask".to_string())],
    );

    svg.rect(100, 100).mask("testMask").clip_path("testClip");

    let output = svg.to_string();
    assert!(output.contains("mask=\"url(#testMask)\""));
    assert!(output.contains("clip-path=\"url(#testClip)\""));
}

#[test]
fn test_polyline_polygon() {
    let mut svg = Svg::new(200, 200);
    svg.polyline("10,10 50,50 100,10").stroke("#red");
    svg.polygon("10,100 50,150 100,100").fill("#blue");

    let output = svg.to_string();
    assert!(output.contains("polyline"));
    assert!(output.contains("polygon"));
    assert!(output.contains("points="));
}

#[test]
fn test_missing_elements() {
    let mut svg = Svg::new(200, 200);
    svg.image("test.jpg", 100, 100).move_to(0, 0);
    svg.use_element("test").move_to(50, 50);
    svg.symbol("test-symbol");

    let output = svg.to_string();
    assert!(output.contains("image"));
    assert!(output.contains("use"));
    assert!(output.contains("symbol"));
}

#[test]
fn test_text_features() {
    let mut svg = Svg::new(200, 200);
    let text = svg.text("").font_family("Arial").font_size(16);
    text.tspan("Hello").fill("#red");
    text.tspan(" World").fill("#blue");

    let output = svg.to_string();
    assert!(output.contains("font-family=\"Arial\""));
    assert!(output.contains("font-size=\"16\""));
    assert!(output.contains("tspan"));
}

#[test]
fn test_advanced_transforms() {
    let mut svg = Svg::new(200, 200);
    svg.rect(50, 50).flip("x").skew(10, 5).move_to(10, 10);

    let output = svg.to_string();
    assert!(output.contains("transform="));
    assert!(output.contains("scale(-1, 1)") || output.contains("skew"));
}

#[test]
fn test_css_management() {
    let mut svg = Svg::new(200, 200);
    let rect = svg.rect(50, 50).class("primary").add_class("highlight").move_to(10, 10);

    assert!(rect.has_class("primary"));
    assert!(rect.has_class("highlight"));

    rect.remove_class("primary");
    assert!(!rect.has_class("primary"));
    assert!(rect.has_class("highlight"));
}

#[test]
fn test_viewbox() {
    let mut svg = Svg::new(800, 600);
    svg.viewbox(0, 0, 400, 300);

    let output = svg.to_string();
    assert!(output.contains("viewBox=\"0 0 400 300\""));
}
