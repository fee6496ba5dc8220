use svg_rs::PathSegment;
use svg_rs::Svg;

#[test]
fn test_path_building() {
    let mut canvas = Svg::new(100, 100);
    let path = canvas.path("").M(10, 10).L(50, 50).Z();

    assert_eq!(path.get_segment_count(), 3);
}

#[test]
fn test_path_curves() {
    let mut canvas = Svg::new(100, 100);
    let path = canvas.path("").M(10, 10).C(20, 20, 30, 30, 40, 40).Q(50, 50, 60, 60);

    assert_eq!(path.get_segment_count(), 3);
}

#[test]
fn test_path_manipulation() {
    let mut canvas = Svg::new(100, 100);
    let path = canvas.path("").M(10, 10).L(50, 50).L(90, 10);

    assert_eq!(path.get_segment_count(), 3);

    path.remove_segment(1);
    assert_eq!(path.get_segment_count(), 2);
}

#[test]
fn test_path_round_trip_serialization() {
    let mut canvas = Svg::new(100, 100);
    let path = canvas.path("").M(10, 10).L(50, 50).Z().redraw();

    assert_eq!(path.attr("d").unwrap(), "M10 10 L50 50 Z");
}

#[test]
fn test_path_compacts_repeated_commands() {
    let mut canvas = Svg::new(100, 100);
    let path = canvas.path("").L(10, 10).L(20, 20).redraw();

    assert_eq!(path.attr("d").unwrap(), "L10 10 20 20");
}

#[test]
fn test_remove_segment_updates_path_data() {
    let mut canvas = Svg::new(100, 100);
    let path = canvas.path("").M(10, 10).L(50, 50).L(90, 10).redraw();

    assert_eq!(path.get_segment_count(), 3);
    assert_eq!(path.attr("d").unwrap(), "M10 10 L50 50 90 10");

    path.remove_segment(1);
    assert_eq!(path.get_segment_count(), 2);
    assert_eq!(path.attr("d").unwrap(), "M10 10 L90 10");

    path.remove_segment(7);
    assert_eq!(path.get_segment_count(), 2);
    assert_eq!(path.attr("d").unwrap(), "M10 10 L90 10");
}

#[test]
fn test_replace_segment_redraws() {
    let mut canvas = Svg::new(100, 100);
    let path = canvas.path("").M(0, 0).L(5, 5).redraw();
    assert_eq!(path.attr("d").unwrap(), "M0 0 L5 5");

    path.replace_segment(
        1,
        PathSegment { command: "L".to_string(), coords: vec![7, 8] },
    );
    assert_eq!(path.attr("d").unwrap(), "M0 0 L7 8");

    path.replace_segment(
        9,
        PathSegment { command: "L".to_string(), coords: vec![1, 1] },
    );
    assert_eq!(path.attr("d").unwrap(), "M0 0 L7 8");
}

#[test]
fn test_get_segment_bounds() {
    let mut canvas = Svg::new(100, 100);
    let path = canvas.path("").M(1, 2).L(3, 4);

    let seg = path.get_segment(1).unwrap();
    assert_eq!(seg.command, "L");
    assert_eq!(seg.coords, vec![3, 4]);
    assert!(path.get_segment(2).is_none());
}

#[test]
fn test_clear_path_resets_data() {
    let mut canvas = Svg::new(100, 100);
    let path = canvas.path("").M(1, 2).L(3, 4).redraw();
    assert_eq!(path.attr("d").unwrap(), "M1 2 L3 4");

    path.clear_path();
    assert_eq!(path.get_segment_count(), 0);
    assert_eq!(path.attr("d").unwrap(), "");
}

#[test]
fn test_first_segment_renders_eagerly() {
    let mut canvas = Svg::new(100, 100);
    let path = canvas.path("").M(10, 10);
    assert_eq!(path.attr("d").unwrap(), "M10 10");

    path.L(50, 50);
    assert_eq!(path.attr("d").unwrap(), "M10 10");

    path.redraw();
    assert_eq!(path.attr("d").unwrap(), "M10 10 L50 50");
}

#[test]
fn test_eager_mode_keeps_path_fresh() {
    let mut canvas = Svg::new(100, 100);
    let path = canvas.path("").update(true).M(10, 10).L(50, 50);
    assert_eq!(path.attr("d").unwrap(), "M10 10 L50 50");
}

#[test]
fn test_negative_coordinates() {
    let mut canvas = Svg::new(100, 100);
    let path = canvas.path("").M(-10, -20).l(-3, 4).redraw();
    assert_eq!(path.attr("d").unwrap(), "M-10 -20 l-3 4");
}

#[test]
fn test_arc_flags_join_coordinates() {
    let mut canvas = Svg::new(100, 100);
    let path = canvas.path("").A(25, 25, 0, 0, 1, 50, 50).redraw();
    assert_eq!(path.attr("d").unwrap(), "A25 25 0 0 1 50 50");
}

#[test]
fn test_draw_animated_sets_dash_attributes() {
    let mut canvas = Svg::new(100, 100);
    let path = canvas.path("").M(0, 0).L(10, 10).Z();
    path.draw_animated(2, 0, "linear");

    assert_eq!(path.attr("stroke-dasharray").unwrap(), "300 300");
    assert_eq!(path.attr("stroke-dashoffset").unwrap(), "300");
    let output = canvas.to_string();
    assert!(output.contains("attributeName=\"stroke-dashoffset\""));
    assert!(output.contains("dur=\"2s\""));
}
