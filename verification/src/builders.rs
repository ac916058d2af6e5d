//! Building board items: nets, layers, tracks, graphics and text.
//!
//! Lengths are nanometres.
use vstd::prelude::*;
use vstd::string::*;

pub use crate::library::resolve_footprint_file;
pub use crate::sexp::{instantiate_footprint_sexp, via_sexp};
pub use crate::wire::{extract_item_kiid, pack_any};

use crate::laws::shapes::{
    a_layer_is_the_one_named, is_arc, is_circle, is_new_shape, is_new_track, is_point, is_polygons,
    is_rectangle, is_segment, is_text_on,
};
use crate::text::same_text;
use crate::types::{
    Angle, BoardGraphicShape, BoardLayer, BoardText, Distance, Geometry, GraphicArcAttributes,
    GraphicAttributes, GraphicCircleAttributes, GraphicFillAttributes, GraphicFillType,
    GraphicRectangleAttributes, GraphicSegmentAttributes, GraphicShape, HorizontalAlignment,
    LockedState, Net, NetCode, NetModel, NodeGeometry, PolyLine, PolyLineNode, PolySet,
    PolygonWithHoles, Real, StrokeAttributes, Text, TextAttributes, Track, TrackModel, Vector2,
    VerticalAlignment,
};

verus! {

// ------------------------------------------------------------ places, nets

/// The point (`x_nm`, `y_nm`).
pub fn vec2(x_nm: i64, y_nm: i64) -> (v: Vector2)
    ensures
        v == (Vector2 { x_nm, y_nm }),
{
    Vector2 { x_nm, y_nm }
}

/// The distance `nm`.
pub fn distance(nm: i64) -> (d: Distance)
    ensures
        d == (Distance { value_nm: nm }),
{
    Distance { value_nm: nm }
}

/// The net with the given name and code.
pub fn net(name: &str, code: i32) -> (n: Net)
    ensures
        n.deep_view() == (NetModel { code: Some(NetCode { value: code }), name: name@ }),
{
    Net { code: Some(NetCode { value: code }), name: name.to_string() }
}

// ------------------------------------------------------------ layers

/// The layer that a name stands for. Four layers have a second, longer name.
pub open spec fn layer_named(name: Seq<char>) -> BoardLayer {
    if name == "F.Cu"@ {
        BoardLayer::BlFCu
    } else if name == "B.Cu"@ {
        BoardLayer::BlBCu
    } else if name == "In1.Cu"@ {
        BoardLayer::BlIn1Cu
    } else if name == "In2.Cu"@ {
        BoardLayer::BlIn2Cu
    } else if name == "F.SilkS"@ || name == "F.Silkscreen"@ {
        BoardLayer::BlFSilkS
    } else if name == "B.SilkS"@ || name == "B.Silkscreen"@ {
        BoardLayer::BlBSilkS
    } else if name == "F.Mask"@ {
        BoardLayer::BlFMask
    } else if name == "B.Mask"@ {
        BoardLayer::BlBMask
    } else if name == "F.Paste"@ {
        BoardLayer::BlFPaste
    } else if name == "B.Paste"@ {
        BoardLayer::BlBPaste
    } else if name == "F.CrtYd"@ || name == "F.Courtyard"@ {
        BoardLayer::BlFCrtYd
    } else if name == "B.CrtYd"@ || name == "B.Courtyard"@ {
        BoardLayer::BlBCrtYd
    } else if name == "F.Fab"@ {
        BoardLayer::BlFFab
    } else if name == "B.Fab"@ {
        BoardLayer::BlBFab
    } else if name == "Edge.Cuts"@ {
        BoardLayer::BlEdgeCuts
    } else {
        BoardLayer::BlUndefined
    }
}

/// The layer with the given name, or the undefined layer.
pub fn layer_from_name(name: &str) -> (layer: BoardLayer)
    ensures
        layer == layer_named(name@),
{
    if same_text(name, "F.Cu") {
        BoardLayer::BlFCu
    } else if same_text(name, "B.Cu") {
        BoardLayer::BlBCu
    } else if same_text(name, "In1.Cu") {
        BoardLayer::BlIn1Cu
    } else if same_text(name, "In2.Cu") {
        BoardLayer::BlIn2Cu
    } else if same_text(name, "F.SilkS") || same_text(name, "F.Silkscreen") {
        BoardLayer::BlFSilkS
    } else if same_text(name, "B.SilkS") || same_text(name, "B.Silkscreen") {
        BoardLayer::BlBSilkS
    } else if same_text(name, "F.Mask") {
        BoardLayer::BlFMask
    } else if same_text(name, "B.Mask") {
        BoardLayer::BlBMask
    } else if same_text(name, "F.Paste") {
        BoardLayer::BlFPaste
    } else if same_text(name, "B.Paste") {
        BoardLayer::BlBPaste
    } else if same_text(name, "F.CrtYd") || same_text(name, "F.Courtyard") {
        BoardLayer::BlFCrtYd
    } else if same_text(name, "B.CrtYd") || same_text(name, "B.Courtyard") {
        BoardLayer::BlBCrtYd
    } else if same_text(name, "F.Fab") {
        BoardLayer::BlFFab
    } else if same_text(name, "B.Fab") {
        BoardLayer::BlBFab
    } else if same_text(name, "Edge.Cuts") {
        BoardLayer::BlEdgeCuts
    } else {
        BoardLayer::BlUndefined
    }
}

/// The name of a layer.
pub open spec fn layer_name(layer: BoardLayer) -> Seq<char> {
    match layer {
        BoardLayer::BlFCu => "F.Cu"@,
        BoardLayer::BlBCu => "B.Cu"@,
        BoardLayer::BlIn1Cu => "In1.Cu"@,
        BoardLayer::BlIn2Cu => "In2.Cu"@,
        BoardLayer::BlFSilkS => "F.SilkS"@,
        BoardLayer::BlBSilkS => "B.SilkS"@,
        BoardLayer::BlFMask => "F.Mask"@,
        BoardLayer::BlBMask => "B.Mask"@,
        BoardLayer::BlFPaste => "F.Paste"@,
        BoardLayer::BlBPaste => "B.Paste"@,
        BoardLayer::BlFCrtYd => "F.CrtYd"@,
        BoardLayer::BlBCrtYd => "B.CrtYd"@,
        BoardLayer::BlFFab => "F.Fab"@,
        BoardLayer::BlBFab => "B.Fab"@,
        BoardLayer::BlEdgeCuts => "Edge.Cuts"@,
        BoardLayer::BlUndefined | BoardLayer::BlOther(_) => "Unknown"@,
    }
}

/// The name of a layer, or `Unknown`.
pub fn layer_enum_to_name(layer: BoardLayer) -> (name: &'static str)
    ensures
        name@ == layer_name(layer),
{
    match layer {
        BoardLayer::BlFCu => "F.Cu",
        BoardLayer::BlBCu => "B.Cu",
        BoardLayer::BlIn1Cu => "In1.Cu",
        BoardLayer::BlIn2Cu => "In2.Cu",
        BoardLayer::BlFSilkS => "F.SilkS",
        BoardLayer::BlBSilkS => "B.SilkS",
        BoardLayer::BlFMask => "F.Mask",
        BoardLayer::BlBMask => "B.Mask",
        BoardLayer::BlFPaste => "F.Paste",
        BoardLayer::BlBPaste => "B.Paste",
        BoardLayer::BlFCrtYd => "F.CrtYd",
        BoardLayer::BlBCrtYd => "B.CrtYd",
        BoardLayer::BlFFab => "F.Fab",
        BoardLayer::BlBFab => "B.Fab",
        BoardLayer::BlEdgeCuts => "Edge.Cuts",
        BoardLayer::BlUndefined | BoardLayer::BlOther(_) => "Unknown",
    }
}

// ------------------------------------------------------------ tracks

/// A new track from `start` to `end`. KiCAD gives it its identifier.
pub open spec fn track_model(
    net_name: Seq<char>,
    net_code: i32,
    layer: Seq<char>,
    width_nm: i64,
    start: Vector2,
    end: Vector2,
) -> TrackModel {
    TrackModel {
        id: None,
        start: Some(start),
        end: Some(end),
        width: Some(Distance { value_nm: width_nm }),
        locked: LockedState::LsUnlocked,
        layer: layer_named(layer),
        net: Some(NetModel { code: Some(NetCode { value: net_code }), name: net_name }),
    }
}

/// A new, unlocked track from (`x1`, `y1`) to (`x2`, `y2`).
pub fn build_track(
    net_name: &str,
    net_code: i32,
    layer: &str,
    width_nm: i64,
    x1: i64,
    y1: i64,
    x2: i64,
    y2: i64,
) -> (track: Track)
    ensures
        track.deep_view() == track_model(
            net_name@,
            net_code,
            layer@,
            width_nm,
            Vector2 { x_nm: x1, y_nm: y1 },
            Vector2 { x_nm: x2, y_nm: y2 },
        ),
        is_new_track(track, net_name@, net_code, layer@, width_nm),
        is_point(track.start, x1, y1),
        is_point(track.end, x2, y2),
{
    proof {
        a_layer_is_the_one_named(layer@);
    }
    Track {
        id: None,
        start: Some(vec2(x1, y1)),
        end: Some(vec2(x2, y2)),
        width: Some(distance(width_nm)),
        locked: LockedState::LsUnlocked,
        layer: layer_from_name(layer),
        net: Some(net(net_name, net_code)),
    }
}

// ------------------------------------------------------------ graphics

/// A solid stroke of the given width.
pub open spec fn stroke_model(width_nm: i64) -> StrokeAttributes {
    StrokeAttributes { width: Some(Distance { value_nm: width_nm }), style: 0, color: None }
}

/// A solid stroke of the given width, in the board's own colour.
pub fn stroke(width_nm: i64) -> (s: StrokeAttributes)
    ensures
        s == stroke_model(width_nm),
{
    StrokeAttributes { width: Some(distance(width_nm)), style: 0, color: None }
}

/// How a shape is drawn: the width of its stroke, and whether it is filled.
pub open spec fn attrs_model(width_nm: i64, filled: bool) -> GraphicAttributes {
    GraphicAttributes {
        stroke: Some(stroke_model(width_nm)),
        fill: Some(
            GraphicFillAttributes {
                fill_type: if filled {
                    GraphicFillType::GftFilled
                } else {
                    GraphicFillType::GftUnfilled
                },
                color: None,
            },
        ),
    }
}

/// How a shape is drawn.
pub fn attrs(width_nm: i64, filled: bool) -> (a: GraphicAttributes)
    ensures
        a == attrs_model(width_nm, filled),
{
    GraphicAttributes {
        stroke: Some(stroke(width_nm)),
        fill: Some(
            GraphicFillAttributes {
                fill_type: if filled {
                    GraphicFillType::GftFilled
                } else {
                    GraphicFillType::GftUnfilled
                },
                color: None,
            },
        ),
    }
}

/// A new shape on a layer: unlocked, on no net, and without identifier.
pub open spec fn shape_model(
    layer: Seq<char>,
    attributes: GraphicAttributes,
    geometry: Geometry,
) -> BoardGraphicShape {
    BoardGraphicShape {
        shape: Some(GraphicShape { attributes: Some(attributes), geometry: Some(geometry) }),
        layer: layer_named(layer),
        net: None,
        id: None,
        locked: LockedState::LsUnlocked,
    }
}

/// A new shape on a layer.
pub fn board_shape(
    layer: &str,
    attributes: GraphicAttributes,
    geometry: Geometry,
) -> (s: BoardGraphicShape)
    ensures
        s == shape_model(layer@, attributes, geometry),
{
    BoardGraphicShape {
        shape: Some(GraphicShape { attributes: Some(attributes), geometry: Some(geometry) }),
        layer: layer_from_name(layer),
        net: None,
        id: None,
        locked: LockedState::LsUnlocked,
    }
}

/// A straight segment.
pub fn board_segment(
    layer: &str,
    width_nm: i64,
    x1: i64,
    y1: i64,
    x2: i64,
    y2: i64,
) -> (s: BoardGraphicShape)
    ensures
        s == shape_model(
            layer@,
            attrs_model(width_nm, false),
            Geometry::Segment(
                GraphicSegmentAttributes {
                    start: Some(Vector2 { x_nm: x1, y_nm: y1 }),
                    end: Some(Vector2 { x_nm: x2, y_nm: y2 }),
                },
            ),
        ),
        is_new_shape(s, layer@, width_nm, false),
        is_segment(s, x1, y1, x2, y2),
{
    proof {
        a_layer_is_the_one_named(layer@);
    }
    board_shape(
        layer,
        attrs(width_nm, false),
        Geometry::Segment(
            GraphicSegmentAttributes { start: Some(vec2(x1, y1)), end: Some(vec2(x2, y2)) },
        ),
    )
}

/// A rectangle with the corners (`x1`, `y1`) and (`x2`, `y2`), not rounded.
pub fn board_rectangle(
    layer: &str,
    width_nm: i64,
    x1: i64,
    y1: i64,
    x2: i64,
    y2: i64,
    filled: bool,
) -> (s: BoardGraphicShape)
    ensures
        s == shape_model(
            layer@,
            attrs_model(width_nm, filled),
            Geometry::Rectangle(
                GraphicRectangleAttributes {
                    top_left: Some(Vector2 { x_nm: x1, y_nm: y1 }),
                    bottom_right: Some(Vector2 { x_nm: x2, y_nm: y2 }),
                    corner_radius: None,
                },
            ),
        ),
        is_new_shape(s, layer@, width_nm, filled),
        is_rectangle(s, x1, y1, x2, y2),
{
    proof {
        a_layer_is_the_one_named(layer@);
    }
    board_shape(
        layer,
        attrs(width_nm, filled),
        Geometry::Rectangle(
            GraphicRectangleAttributes {
                top_left: Some(vec2(x1, y1)),
                bottom_right: Some(vec2(x2, y2)),
                corner_radius: None,
            },
        ),
    )
}

/// A circle around (`cx`, `cy`) that meets the horizontal through its center at `rim_x`.
pub fn board_circle(
    layer: &str,
    width_nm: i64,
    cx: i64,
    cy: i64,
    rim_x: i64,
) -> (s: BoardGraphicShape)
    ensures
        s == shape_model(
            layer@,
            attrs_model(width_nm, false),
            Geometry::Circle(
                GraphicCircleAttributes {
                    center: Some(Vector2 { x_nm: cx, y_nm: cy }),
                    radius_point: Some(Vector2 { x_nm: rim_x, y_nm: cy }),
                },
            ),
        ),
        is_new_shape(s, layer@, width_nm, false),
        is_circle(s, cx, cy, rim_x),
{
    proof {
        a_layer_is_the_one_named(layer@);
    }
    board_shape(
        layer,
        attrs(width_nm, false),
        Geometry::Circle(
            GraphicCircleAttributes {
                center: Some(vec2(cx, cy)),
                radius_point: Some(vec2(rim_x, cy)),
            },
        ),
    )
}

/// An arc by its start, mid and end points.
pub fn board_arc(
    layer: &str,
    width_nm: i64,
    sx: i64,
    sy: i64,
    mx: i64,
    my: i64,
    ex: i64,
    ey: i64,
) -> (s: BoardGraphicShape)
    ensures
        s == shape_model(
            layer@,
            attrs_model(width_nm, false),
            Geometry::Arc(
                GraphicArcAttributes {
                    start: Some(Vector2 { x_nm: sx, y_nm: sy }),
                    mid: Some(Vector2 { x_nm: mx, y_nm: my }),
                    end: Some(Vector2 { x_nm: ex, y_nm: ey }),
                },
            ),
        ),
        is_new_shape(s, layer@, width_nm, false),
        is_arc(s, sx, sy, mx, my, ex, ey),
{
    proof {
        a_layer_is_the_one_named(layer@);
    }
    board_shape(
        layer,
        attrs(width_nm, false),
        Geometry::Arc(
            GraphicArcAttributes {
                start: Some(vec2(sx, sy)),
                mid: Some(vec2(mx, my)),
                end: Some(vec2(ex, ey)),
            },
        ),
    )
}

/// `nodes` are the points of `outline`, in order.
pub open spec fn nodes_of(nodes: Seq<PolyLineNode>, outline: Seq<(i64, i64)>) -> bool {
    &&& nodes.len() == outline.len()
    &&& forall|i: int|
        0 <= i < outline.len() ==> #[trigger] nodes[i] == (PolyLineNode {
            geometry: Some(
                NodeGeometry::Point(Vector2 { x_nm: outline[i].0, y_nm: outline[i].1 }),
            ),
        })
}

/// `polygon` is the closed line through the points of `outline`, without holes.
pub open spec fn polygon_of(polygon: PolygonWithHoles, outline: Seq<(i64, i64)>) -> bool {
    &&& polygon.outline matches Some(line) && line.closed && nodes_of(line.nodes@, outline)
    &&& polygon.holes@.len() == 0
}

fn closed_line(outline: &Vec<(i64, i64)>) -> (polygon: PolygonWithHoles)
    ensures
        polygon_of(polygon, outline@),
{
    let mut nodes: Vec<PolyLineNode> = Vec::new();
    let mut i: usize = 0;
    while i < outline.len()
        invariant
            i <= outline@.len(),
            nodes_of(nodes@, outline@.take(i as int)),
        decreases outline@.len() - i,
    {
        let (x, y) = outline[i];
        nodes.push(PolyLineNode { geometry: Some(NodeGeometry::Point(vec2(x, y))) });
        assert(outline@.take(i + 1) =~= outline@.take(i as int).push(outline@[i as int]));
        i = i + 1;
    }
    assert(outline@.take(i as int) =~= outline@);
    PolygonWithHoles { outline: Some(PolyLine { nodes, closed: true }), holes: Vec::new() }
}

/// One polygon for each outline, drawn without a stroke.
pub fn board_polygon(
    layer: &str,
    filled: bool,
    outlines: &Vec<Vec<(i64, i64)>>,
) -> (s: BoardGraphicShape)
    ensures
        ({
            &&& s.shape matches Some(shape)
            &&& shape.geometry matches Some(Geometry::Polygon(set))
            &&& s == shape_model(layer@, attrs_model(0, filled), Geometry::Polygon(set))
            &&& set.polygons@.len() == outlines@.len()
            &&& forall|i: int|
                0 <= i < outlines@.len() ==> polygon_of(
                    #[trigger] set.polygons@[i],
                    outlines@[i]@,
                )
        }),
        is_new_shape(s, layer@, 0, filled),
        is_polygons(s, outlines@),
{
    proof {
        a_layer_is_the_one_named(layer@);
    }
    let mut polygons: Vec<PolygonWithHoles> = Vec::new();
    let mut i: usize = 0;
    while i < outlines.len()
        invariant
            i <= outlines@.len(),
            polygons@.len() == i,
            forall|j: int| 0 <= j < i ==> polygon_of(#[trigger] polygons@[j], outlines@[j]@),
        decreases outlines@.len() - i,
    {
        polygons.push(closed_line(&outlines[i]));
        i = i + 1;
    }
    board_shape(layer, attrs(0, filled), Geometry::Polygon(PolySet { polygons }))
}

/// The bits of the float one.
pub const ONE_BITS: u64 = 0x3ff0_0000_0000_0000;

/// A text on a layer, centered on (`x`, `y`), with glyphs of the given size and stroke.
pub fn board_text(
    layer: &str,
    text: &str,
    x: i64,
    y: i64,
    size_nm: i64,
    stroke_width_nm: i64,
    rotation: Real,
    mirror: bool,
) -> (t: BoardText)
    ensures
        ({
            &&& t.id is None
            &&& t.layer == layer_named(layer@)
            &&& !t.knockout
            &&& t.locked == LockedState::LsUnlocked
            &&& t.text matches Some(body)
            &&& body.position == Some(Vector2 { x_nm: x, y_nm: y })
            &&& body.text@ == text@
            &&& body.hyperlink@.len() == 0
            &&& body.attributes matches Some(a)
            &&& a.font_name@.len() == 0
            &&& a == (TextAttributes {
                font_name: a.font_name,
                horizontal_alignment: HorizontalAlignment::HaCenter,
                vertical_alignment: VerticalAlignment::VaCenter,
                angle: Some(Angle { value_degrees: rotation }),
                line_spacing: Real { bits: ONE_BITS },
                stroke_width: Some(Distance { value_nm: stroke_width_nm }),
                italic: false,
                bold: false,
                underlined: false,
                visible: true,
                mirrored: mirror,
                multiline: false,
                keep_upright: false,
                size: Some(Vector2 { x_nm: size_nm, y_nm: size_nm }),
            })
        }),
        is_text_on(t, layer@, text@, x, y, size_nm, stroke_width_nm, rotation, mirror),
{
    proof {
        a_layer_is_the_one_named(layer@);
    }
    BoardText {
        id: None,
        text: Some(
            Text {
                position: Some(vec2(x, y)),
                attributes: Some(
                    TextAttributes {
                        font_name: String::new(),
                        horizontal_alignment: HorizontalAlignment::HaCenter,
                        vertical_alignment: VerticalAlignment::VaCenter,
                        angle: Some(Angle { value_degrees: rotation }),
                        line_spacing: Real { bits: ONE_BITS },
                        stroke_width: Some(distance(stroke_width_nm)),
                        italic: false,
                        bold: false,
                        underlined: false,
                        visible: true,
                        mirrored: mirror,
                        multiline: false,
                        keep_upright: false,
                        size: Some(vec2(size_nm, size_nm)),
                    },
                ),
                text: text.to_string(),
                hyperlink: String::new(),
            },
        ),
        layer: layer_from_name(layer),
        knockout: false,
        locked: LockedState::LsUnlocked,
    }
}

} // verus!
