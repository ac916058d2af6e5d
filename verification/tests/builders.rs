//! Building board items.
use konnect_ipc::builders::{
    attrs, board_arc, board_circle, board_polygon, board_rectangle, board_segment, board_text,
    build_track, distance, layer_enum_to_name, layer_from_name, net, stroke, vec2, ONE_BITS,
};
use konnect_ipc::types::{
    BoardLayer, Geometry, GraphicFillType, HorizontalAlignment, LockedState, NodeGeometry, Real,
    VerticalAlignment,
};

/// Millimetres in whole nanometres.
fn nm(mm: f64) -> i64 {
    (mm * 1_000_000.0) as i64
}

fn outline(points: &[(f64, f64)]) -> Vec<(i64, i64)> {
    points.iter().map(|&(x, y)| (nm(x), nm(y))).collect()
}

#[test]
fn segment_populates_start_end_and_layer() {
    let s = board_segment("Edge.Cuts", nm(0.05), nm(1.0), nm(2.0), nm(3.0), nm(4.0));
    assert_eq!(s.layer, BoardLayer::BlEdgeCuts);
    let shape = s.shape.expect("shape");
    match shape.geometry.expect("geometry") {
        Geometry::Segment(g) => {
            assert_eq!(g.start.unwrap().x_nm, 1_000_000);
            assert_eq!(g.start.unwrap().y_nm, 2_000_000);
            assert_eq!(g.end.unwrap().x_nm, 3_000_000);
            assert_eq!(g.end.unwrap().y_nm, 4_000_000);
        }
        _ => panic!("expected Segment geometry"),
    }
    let a = shape.attributes.expect("attrs");
    assert_eq!(a.stroke.unwrap().width.unwrap().value_nm, 50_000);
    assert_eq!(a.fill.unwrap().fill_type, GraphicFillType::GftUnfilled);
    assert!(a.stroke.unwrap().color.is_none() && a.fill.unwrap().color.is_none());
}

#[test]
fn rectangle_variant_and_filled_flag() {
    let s = board_rectangle("F.SilkS", nm(0.1), nm(0.0), nm(0.0), nm(10.0), nm(5.0), true);
    assert_eq!(s.layer, BoardLayer::BlFSilkS);
    let shape = s.shape.expect("shape");
    assert!(matches!(shape.geometry, Some(Geometry::Rectangle(_))));
    assert_eq!(
        shape.attributes.unwrap().fill.unwrap().fill_type,
        GraphicFillType::GftFilled
    );
}

#[test]
fn circle_radius_point_is_center_plus_radius() {
    let s = board_circle("F.SilkS", nm(0.1), nm(5.0), nm(5.0), nm(5.0 + 2.5));
    match s.shape.unwrap().geometry.unwrap() {
        Geometry::Circle(c) => {
            assert_eq!(c.center.unwrap().x_nm, 5_000_000);
            assert_eq!(c.radius_point.unwrap().x_nm, 7_500_000);
            assert_eq!(c.radius_point.unwrap().y_nm, 5_000_000);
        }
        _ => panic!("expected Circle geometry"),
    }
}

#[test]
fn arc_start_mid_end_populated() {
    let s = board_arc(
        "F.SilkS", nm(0.1), nm(0.0), nm(0.0), nm(1.0), nm(1.0), nm(2.0), nm(0.0),
    );
    match s.shape.unwrap().geometry.unwrap() {
        Geometry::Arc(a) => {
            assert_eq!(a.start.unwrap().x_nm, 0);
            assert_eq!(a.mid.unwrap().x_nm, 1_000_000);
            assert_eq!(a.end.unwrap().x_nm, 2_000_000);
        }
        _ => panic!("expected Arc geometry"),
    }
}

#[test]
fn text_carries_position_size_layer_and_rotation() {
    let rotation = Real { bits: 90.0f64.to_bits() };
    let t = board_text(
        "F.SilkS", "hi", nm(12.0), nm(34.0), nm(1.5), nm(1.5 * 0.15), rotation, false,
    );
    assert_eq!(t.layer, BoardLayer::BlFSilkS);
    let text = t.text.expect("text");
    assert_eq!(text.text, "hi");
    assert_eq!(text.position.unwrap().x_nm, 12_000_000);
    let attrs = text.attributes.expect("attrs");
    assert_eq!(attrs.size.unwrap().x_nm, 1_500_000);
    assert_eq!(f64::from_bits(attrs.angle.unwrap().value_degrees.bits), 90.0);
    assert!(!attrs.mirrored);
}

#[test]
fn polygon_builds_one_polygon_with_holes_per_outline() {
    let outlines = vec![
        outline(&[(0.0, 0.0), (1.0, 0.0), (1.0, 1.0)]),
        outline(&[(5.0, 5.0), (6.0, 5.0), (6.0, 6.0)]),
    ];
    let s = board_polygon("F.SilkS", true, &outlines);
    assert_eq!(s.layer, BoardLayer::BlFSilkS);
    let shape = s.shape.expect("shape");
    assert_eq!(
        shape.attributes.unwrap().fill.unwrap().fill_type,
        GraphicFillType::GftFilled
    );
    match shape.geometry.expect("geometry") {
        Geometry::Polygon(poly_set) => {
            assert_eq!(poly_set.polygons.len(), 2);
            let first = &poly_set.polygons[0];
            assert!(first.holes.is_empty());
            let outline = first.outline.as_ref().expect("outline");
            assert!(outline.closed);
            assert_eq!(outline.nodes.len(), 3);
        }
        _ => panic!("expected Polygon geometry"),
    }
}

#[test]
fn polygon_nodes_carry_point_coordinates_in_nanometers() {
    let outlines = vec![outline(&[(1.0, 2.0)])];
    let s = board_polygon("F.Cu", false, &outlines);
    match s.shape.unwrap().geometry.unwrap() {
        Geometry::Polygon(poly_set) => {
            let node = &poly_set.polygons[0].outline.as_ref().unwrap().nodes[0];
            match node.geometry.as_ref().expect("node geometry") {
                NodeGeometry::Point(p) => {
                    assert_eq!(p.x_nm, 1_000_000);
                    assert_eq!(p.y_nm, 2_000_000);
                }
            }
        }
        _ => panic!("expected Polygon geometry"),
    }
}

#[test]
fn polygon_empty_outlines_produces_empty_polyset() {
    let outlines: Vec<Vec<(i64, i64)>> = vec![];
    let s = board_polygon("F.SilkS", true, &outlines);
    match s.shape.unwrap().geometry.unwrap() {
        Geometry::Polygon(poly_set) => assert!(poly_set.polygons.is_empty()),
        _ => panic!("expected Polygon geometry"),
    }
}

#[test]
fn polygons_have_no_stroke_width() {
    let outlines = vec![outline(&[(1.0, 2.0)])];
    let s = board_polygon("F.Cu", false, &outlines);
    let a = s.shape.unwrap().attributes.unwrap();
    assert_eq!(a.stroke.unwrap().width.unwrap().value_nm, 0);
    assert_eq!(a.fill.unwrap().fill_type, GraphicFillType::GftUnfilled);
}

#[test]
fn text_has_the_default_look() {
    let t = board_text("B.SilkS", "x", 1, 2, 3, 4, Real { bits: 0 }, true);
    assert!(t.id.is_none());
    assert!(!t.knockout);
    assert_eq!(t.locked, LockedState::LsUnlocked);
    assert_eq!(t.layer, BoardLayer::BlBSilkS);
    let text = t.text.unwrap();
    assert_eq!(text.hyperlink, "");
    let a = text.attributes.unwrap();
    assert_eq!(a.font_name, "");
    assert_eq!(a.horizontal_alignment, HorizontalAlignment::HaCenter);
    assert_eq!(a.vertical_alignment, VerticalAlignment::VaCenter);
    assert_eq!(f64::from_bits(a.line_spacing.bits), 1.0);
    assert_eq!(a.line_spacing.bits, ONE_BITS);
    assert_eq!(a.stroke_width.unwrap().value_nm, 4);
    assert_eq!(a.size.unwrap(), vec2(3, 3));
    assert!(a.visible && a.mirrored);
    assert!(!a.bold && !a.italic && !a.underlined && !a.multiline && !a.keep_upright);
}

#[test]
fn shapes_are_new_and_unlocked() {
    let s = board_rectangle("F.Fab", 7, 1, 2, 3, 4, false);
    assert!(s.id.is_none());
    assert!(s.net.is_none());
    assert_eq!(s.locked, LockedState::LsUnlocked);
    match s.shape.unwrap().geometry.unwrap() {
        Geometry::Rectangle(r) => {
            assert_eq!(r.top_left, Some(vec2(1, 2)));
            assert_eq!(r.bottom_right, Some(vec2(3, 4)));
            assert_eq!(r.corner_radius, None);
        }
        _ => panic!("expected Rectangle geometry"),
    }
}

#[test]
fn tracks_are_new_and_unlocked() {
    let t = build_track("GND", 3, "B.Cu", 250_000, 1, 2, 3, 4);
    assert!(t.id.is_none());
    assert_eq!(t.start, Some(vec2(1, 2)));
    assert_eq!(t.end, Some(vec2(3, 4)));
    assert_eq!(t.width, Some(distance(250_000)));
    assert_eq!(t.locked, LockedState::LsUnlocked);
    assert_eq!(t.layer, BoardLayer::BlBCu);
    let on = t.net.unwrap();
    assert_eq!(on.name, "GND");
    assert_eq!(on.code.unwrap().value, 3);
}

#[test]
fn nets_and_strokes_carry_what_they_are_given() {
    let n = net("VCC", -1);
    assert_eq!(n.name, "VCC");
    assert_eq!(n.code.unwrap().value, -1);
    assert_eq!(stroke(9).width, Some(distance(9)));
    assert_eq!(stroke(9).style, 0);
    assert_eq!(attrs(9, true).stroke, Some(stroke(9)));
}

#[test]
fn every_named_layer_is_found_by_its_name() {
    let layers = [
        BoardLayer::BlFCu,
        BoardLayer::BlBCu,
        BoardLayer::BlIn1Cu,
        BoardLayer::BlIn2Cu,
        BoardLayer::BlFSilkS,
        BoardLayer::BlBSilkS,
        BoardLayer::BlFMask,
        BoardLayer::BlBMask,
        BoardLayer::BlFPaste,
        BoardLayer::BlBPaste,
        BoardLayer::BlFCrtYd,
        BoardLayer::BlBCrtYd,
        BoardLayer::BlFFab,
        BoardLayer::BlBFab,
        BoardLayer::BlEdgeCuts,
    ];
    for layer in layers {
        assert_eq!(layer_from_name(layer_enum_to_name(layer)), layer);
    }
}

#[test]
fn layers_have_long_names_too() {
    assert_eq!(layer_from_name("F.Silkscreen"), BoardLayer::BlFSilkS);
    assert_eq!(layer_from_name("B.Silkscreen"), BoardLayer::BlBSilkS);
    assert_eq!(layer_from_name("F.Courtyard"), BoardLayer::BlFCrtYd);
    assert_eq!(layer_from_name("B.Courtyard"), BoardLayer::BlBCrtYd);
}

#[test]
fn other_layers_are_unknown() {
    assert_eq!(layer_from_name("In3.Cu"), BoardLayer::BlUndefined);
    assert_eq!(layer_from_name(""), BoardLayer::BlUndefined);
    assert_eq!(layer_enum_to_name(BoardLayer::BlOther(7)), "Unknown");
    assert_eq!(layer_enum_to_name(BoardLayer::BlUndefined), "Unknown");
}
