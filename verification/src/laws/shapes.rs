//! What builders build, field by field.
use vstd::prelude::*;
use vstd::string::*;

use crate::builders::{attrs_model, layer_name, layer_named, shape_model, track_model};
use crate::laws::reading::is_called;
use crate::types::{
    BoardGraphicShape, BoardLayer, BoardText, Geometry, GraphicAttributes, GraphicFillType,
    NodeGeometry, PolygonWithHoles, Real, Track, Vector2,
};

verus! {

// ------------------------------------------------------------ layers

/// The layer is the one that the name stands for, or the undefined one if it stands for none.
pub open spec fn is_layer_for(layer: BoardLayer, name: Seq<char>) -> bool {
    &&& layer == BoardLayer::BlFCu <==> name == "F.Cu"@
    &&& layer == BoardLayer::BlBCu <==> name == "B.Cu"@
    &&& layer == BoardLayer::BlIn1Cu <==> name == "In1.Cu"@
    &&& layer == BoardLayer::BlIn2Cu <==> name == "In2.Cu"@
    &&& layer == BoardLayer::BlFSilkS <==> name == "F.SilkS"@ || name == "F.Silkscreen"@
    &&& layer == BoardLayer::BlBSilkS <==> name == "B.SilkS"@ || name == "B.Silkscreen"@
    &&& layer == BoardLayer::BlFMask <==> name == "F.Mask"@
    &&& layer == BoardLayer::BlBMask <==> name == "B.Mask"@
    &&& layer == BoardLayer::BlFPaste <==> name == "F.Paste"@
    &&& layer == BoardLayer::BlBPaste <==> name == "B.Paste"@
    &&& layer == BoardLayer::BlFCrtYd <==> name == "F.CrtYd"@ || name == "F.Courtyard"@
    &&& layer == BoardLayer::BlBCrtYd <==> name == "B.CrtYd"@ || name == "B.Courtyard"@
    &&& layer == BoardLayer::BlFFab <==> name == "F.Fab"@
    &&& layer == BoardLayer::BlBFab <==> name == "B.Fab"@
    &&& layer == BoardLayer::BlEdgeCuts <==> name == "Edge.Cuts"@
    &&& !(layer is BlOther)
}

/// A name stands for the layer that is called so.
pub proof fn a_layer_is_the_one_named(name: Seq<char>)
    ensures
        is_layer_for(layer_named(name), name),
{
    crate::laws::names::reveal_names();
}

/// A layer is called by its name, or `Unknown`.
pub proof fn a_layer_is_called_by_its_name(layer: BoardLayer)
    ensures
        is_called(layer, layer_name(layer)),
{
}

// ------------------------------------------------------------ tracks

/// A new track runs from the one point to the other, with the width, on the layer and the net that
/// were asked for; it is unlocked, and has no identifier yet.
pub proof fn a_track_has_what_was_asked_for(
    net_name: Seq<char>,
    net_code: i32,
    layer: Seq<char>,
    width_nm: i64,
    start: Vector2,
    end: Vector2,
)
    ensures
        ({
            let track = track_model(net_name, net_code, layer, width_nm, start, end);
            &&& track.id is None
            &&& track.start == Some(start)
            &&& track.end == Some(end)
            &&& track.width matches Some(width) && width.value_nm == width_nm
            &&& track.locked is LsUnlocked
            &&& is_layer_for(track.layer, layer)
            &&& track.net matches Some(net) && net.name == net_name && (net.code matches Some(code)
                && code.value == net_code)
        }),
{
    a_layer_is_the_one_named(layer);
}

/// The track has the width and is on the layer and the net; it is unlocked, and has no identifier.
pub open spec fn is_new_track(
    track: Track,
    net_name: Seq<char>,
    net_code: i32,
    layer: Seq<char>,
    width_nm: i64,
) -> bool {
    &&& track.id is None
    &&& track.locked is LsUnlocked
    &&& is_layer_for(track.layer, layer)
    &&& track.width matches Some(width) && width.value_nm == width_nm
    &&& track.net matches Some(net) && net.name@ == net_name && (net.code matches Some(code)
        && code.value == net_code)
}

// ------------------------------------------------------------ graphics

/// The shape is drawn with a solid stroke of the given width and is filled or not, in the board's
/// own colours.
pub open spec fn is_drawn(attributes: GraphicAttributes, width_nm: i64, filled: bool) -> bool {
    &&& attributes.stroke matches Some(stroke) && stroke.style == 0 && stroke.color is None && (
    stroke.width matches Some(width) && width.value_nm == width_nm)
    &&& attributes.fill matches Some(fill) && fill.color is None && fill.fill_type == if filled {
        GraphicFillType::GftFilled
    } else {
        GraphicFillType::GftUnfilled
    }
}

/// A new shape: it is on the layer, drawn as asked for, on no net, unlocked and without
/// identifier.
pub open spec fn is_new_shape(
    s: BoardGraphicShape,
    layer: Seq<char>,
    width_nm: i64,
    filled: bool,
) -> bool {
    &&& is_layer_for(s.layer, layer)
    &&& s.net is None
    &&& s.id is None
    &&& s.locked is LsUnlocked
    &&& s.shape matches Some(shape) && (shape.attributes matches Some(attributes) && is_drawn(
        attributes,
        width_nm,
        filled,
    ))
}

/// A shape has the attributes and the geometry that it is given.
pub proof fn a_shape_has_what_it_is_given(
    layer: Seq<char>,
    width_nm: i64,
    filled: bool,
    geometry: Geometry,
)
    ensures
        is_drawn(attrs_model(width_nm, filled), width_nm, filled),
        is_new_shape(
            shape_model(layer, attrs_model(width_nm, filled), geometry),
            layer,
            width_nm,
            filled,
        ),
        shape_model(layer, attrs_model(width_nm, filled), geometry).shape matches Some(shape)
            && shape.geometry == Some(geometry),
{
    a_layer_is_the_one_named(layer);
}

/// The point has these coordinates.
pub open spec fn is_point(p: Option<Vector2>, x: i64, y: i64) -> bool {
    p matches Some(v) && v.x_nm == x && v.y_nm == y
}

/// The geometry of a shape.
pub open spec fn geometry_of(s: BoardGraphicShape) -> Option<Geometry> {
    if s.shape is Some {
        s.shape->0.geometry
    } else {
        None
    }
}

/// The shape is a segment from the first point to the second.
pub open spec fn is_segment(s: BoardGraphicShape, x1: i64, y1: i64, x2: i64, y2: i64) -> bool {
    geometry_of(s) matches Some(Geometry::Segment(line)) && is_point(line.start, x1, y1)
        && is_point(line.end, x2, y2)
}

/// The shape is a rectangle with these corners, which are not rounded.
pub open spec fn is_rectangle(s: BoardGraphicShape, x1: i64, y1: i64, x2: i64, y2: i64) -> bool {
    geometry_of(s) matches Some(Geometry::Rectangle(r)) && is_point(r.top_left, x1, y1)
        && is_point(r.bottom_right, x2, y2) && r.corner_radius is None
}

/// The shape is a circle around the center, through the point beside it at `rim_x`.
pub open spec fn is_circle(s: BoardGraphicShape, cx: i64, cy: i64, rim_x: i64) -> bool {
    geometry_of(s) matches Some(Geometry::Circle(c)) && is_point(c.center, cx, cy) && is_point(
        c.radius_point,
        rim_x,
        cy,
    )
}

/// The shape is an arc from the first point over the second to the third.
pub open spec fn is_arc(
    s: BoardGraphicShape,
    sx: i64,
    sy: i64,
    mx: i64,
    my: i64,
    ex: i64,
    ey: i64,
) -> bool {
    geometry_of(s) matches Some(Geometry::Arc(arc)) && is_point(arc.start, sx, sy) && is_point(
        arc.mid,
        mx,
        my,
    ) && is_point(arc.end, ex, ey)
}

/// The polygon is the closed line through these points, in order, without holes.
pub open spec fn is_polygon(polygon: PolygonWithHoles, points: Seq<(i64, i64)>) -> bool {
    &&& polygon.holes@.len() == 0
    &&& polygon.outline matches Some(line)
    &&& line.closed
    &&& line.nodes@.len() == points.len()
    &&& forall|i: int|
        0 <= i < points.len() ==> ((#[trigger] line.nodes@[i]).geometry matches Some(
            NodeGeometry::Point(p),
        ) && p.x_nm == points[i].0 && p.y_nm == points[i].1)
}

/// The shape is a set of polygons, one for each list of points.
pub open spec fn is_polygons(s: BoardGraphicShape, outlines: Seq<Vec<(i64, i64)>>) -> bool {
    &&& geometry_of(s) matches Some(Geometry::Polygon(set))
    &&& set.polygons@.len() == outlines.len()
    &&& forall|i: int|
        0 <= i < outlines.len() ==> is_polygon(#[trigger] set.polygons@[i], outlines[i]@)
}

/// The text stands at the point, centered on it, with glyphs of this size and stroke, at the angle,
/// mirrored or not; it is on the layer, and plain otherwise.
pub open spec fn is_text_on(
    t: BoardText,
    layer: Seq<char>,
    text: Seq<char>,
    x: i64,
    y: i64,
    size_nm: i64,
    stroke_width_nm: i64,
    rotation: Real,
    mirror: bool,
) -> bool {
    &&& is_layer_for(t.layer, layer)
    &&& t.id is None
    &&& !t.knockout
    &&& t.locked is LsUnlocked
    &&& t.text matches Some(body)
    &&& body.text@ == text
    &&& body.hyperlink@.len() == 0
    &&& is_point(body.position, x, y)
    &&& body.attributes matches Some(a)
    &&& a.font_name@.len() == 0
    &&& a.horizontal_alignment is HaCenter
    &&& a.vertical_alignment is VaCenter
    &&& a.angle matches Some(angle) && angle.value_degrees == rotation
    &&& a.line_spacing.bits == 0x3ff0_0000_0000_0000
    &&& a.stroke_width matches Some(width) && width.value_nm == stroke_width_nm
    &&& !a.italic && !a.bold && !a.underlined && a.visible && !a.multiline && !a.keep_upright
    &&& a.mirrored == mirror
    &&& is_point(a.size, size_nm, size_nm)
}

} // verus!
