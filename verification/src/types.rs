//! The messages and records that the client reads and builds.
//!
//! Lengths are nanometres. A 64-bit float that KiCAD sends or gets is carried by its bits
//! (`Real`), so that it can be handed on unchanged.
use vstd::prelude::*;

verus! {

// ------------------------------------------------------------ numbers and places

/// A 64-bit float, by its IEEE 754 bits.
#[derive(Clone, Copy, Debug, PartialEq, Eq, Structural)]
pub struct Real {
    pub bits: u64,
}

/// A length that a caller gave in millimetres: the float itself, the whole nanometres in it
/// (truncated), and the float as text.
#[derive(Debug)]
pub struct Mm {
    pub value: Real,
    pub nm: i64,
    pub text: String,
}

/// An angle that a caller gave in degrees: the float itself, and the float as text.
#[derive(Debug)]
pub struct Degrees {
    pub value: Real,
    pub text: String,
}

#[derive(Clone, Copy, Debug, PartialEq, Eq, Structural)]
pub struct Vector2 {
    pub x_nm: i64,
    pub y_nm: i64,
}

#[derive(Clone, Copy, Debug, PartialEq, Eq, Structural)]
pub struct Distance {
    pub value_nm: i64,
}

#[derive(Clone, Copy, Debug, PartialEq, Eq, Structural)]
pub struct Angle {
    pub value_degrees: Real,
}

/// The point (0, 0), which stands for a position that is absent.
pub open spec fn origin() -> Vector2 {
    Vector2 { x_nm: 0, y_nm: 0 }
}

/// The position in `p`, or the origin.
pub fn position_or_origin(p: &Option<Vector2>) -> (v: Vector2)
    ensures
        v == (match *p {
            Some(q) => q,
            None => origin(),
        }),
{
    match p {
        Some(q) => *q,
        None => Vector2 { x_nm: 0, y_nm: 0 },
    }
}

// ------------------------------------------------------------ board items

/// The board layers that have a name here. Every other layer is `BlOther`, with its number.
#[derive(Clone, Copy, Debug, PartialEq, Eq, Structural)]
pub enum BoardLayer {
    BlUndefined,
    BlFCu,
    BlBCu,
    BlIn1Cu,
    BlIn2Cu,
    BlFSilkS,
    BlBSilkS,
    BlFMask,
    BlBMask,
    BlFPaste,
    BlBPaste,
    BlFCrtYd,
    BlBCrtYd,
    BlFFab,
    BlBFab,
    BlEdgeCuts,
    BlOther(i32),
}

#[derive(Clone, Copy, Debug, PartialEq, Eq, Structural)]
pub enum LockedState {
    LsUnknown,
    LsUnlocked,
    LsLocked,
}

#[derive(Clone, Copy, Debug, PartialEq, Eq, Structural)]
pub struct NetCode {
    pub value: i32,
}

#[derive(Debug)]
pub struct Net {
    pub code: Option<NetCode>,
    pub name: String,
}

#[derive(Debug)]
pub struct Kiid {
    pub value: String,
}

#[derive(Debug)]
pub struct Track {
    pub id: Option<Kiid>,
    pub start: Option<Vector2>,
    pub end: Option<Vector2>,
    pub width: Option<Distance>,
    pub locked: LockedState,
    pub layer: BoardLayer,
    pub net: Option<Net>,
}

#[derive(Debug)]
pub struct LibraryIdentifier {
    pub library_nickname: String,
    pub entry_name: String,
}

/// The library definition of a placed footprint.
#[derive(Debug)]
pub struct Footprint {
    pub id: Option<LibraryIdentifier>,
}

/// A text field of a placed footprint.
#[derive(Debug)]
pub struct Field {
    pub text: Option<BoardText>,
}

#[derive(Debug)]
pub struct FootprintInstance {
    pub id: Option<Kiid>,
    pub position: Option<Vector2>,
    pub orientation: Option<Angle>,
    pub layer: BoardLayer,
    pub definition: Option<Footprint>,
    pub reference_field: Option<Field>,
    pub value_field: Option<Field>,
}

#[derive(Clone, Copy, Debug, PartialEq, Eq, Structural)]
pub struct DrillProperties {
    pub diameter: Option<Vector2>,
}

#[derive(Clone, Copy, Debug, PartialEq, Eq, Structural)]
pub struct PadStackLayer {
    pub size: Option<Vector2>,
}

#[derive(Debug)]
pub struct PadStack {
    pub drill: Option<DrillProperties>,
    pub copper_layers: Vec<PadStackLayer>,
}

#[derive(Debug)]
pub struct Via {
    pub id: Option<Kiid>,
    pub position: Option<Vector2>,
    pub net: Option<Net>,
    pub pad_stack: Option<PadStack>,
}

#[derive(Clone, Copy, Debug, PartialEq, Eq, Structural)]
pub struct Zone {
    pub filled: bool,
}

// ------------------------------------------------------------ graphics

#[derive(Clone, Copy, Debug, PartialEq, Eq, Structural)]
pub struct Color {
    pub r: Real,
    pub g: Real,
    pub b: Real,
    pub a: Real,
}

#[derive(Clone, Copy, Debug, PartialEq, Eq, Structural)]
pub struct StrokeAttributes {
    pub width: Option<Distance>,
    pub style: i32,
    /// If absent, the board's own colour.
    pub color: Option<Color>,
}

#[derive(Clone, Copy, Debug, PartialEq, Eq, Structural)]
pub enum GraphicFillType {
    GftUnfilled,
    GftFilled,
}

#[derive(Clone, Copy, Debug, PartialEq, Eq, Structural)]
pub struct GraphicFillAttributes {
    pub fill_type: GraphicFillType,
    /// If absent, the board's own colour.
    pub color: Option<Color>,
}

#[derive(Clone, Copy, Debug, PartialEq, Eq, Structural)]
pub struct GraphicAttributes {
    pub stroke: Option<StrokeAttributes>,
    pub fill: Option<GraphicFillAttributes>,
}

#[derive(Clone, Copy, Debug, PartialEq, Eq, Structural)]
pub struct GraphicSegmentAttributes {
    pub start: Option<Vector2>,
    pub end: Option<Vector2>,
}

#[derive(Clone, Copy, Debug, PartialEq, Eq, Structural)]
pub struct GraphicRectangleAttributes {
    pub top_left: Option<Vector2>,
    pub bottom_right: Option<Vector2>,
    pub corner_radius: Option<Distance>,
}

#[derive(Clone, Copy, Debug, PartialEq, Eq, Structural)]
pub struct GraphicCircleAttributes {
    pub center: Option<Vector2>,
    /// A point on the circumference; there is no radius as such.
    pub radius_point: Option<Vector2>,
}

#[derive(Clone, Copy, Debug, PartialEq, Eq, Structural)]
pub struct GraphicArcAttributes {
    pub start: Option<Vector2>,
    pub mid: Option<Vector2>,
    pub end: Option<Vector2>,
}

#[derive(Clone, Copy, Debug, PartialEq, Eq, Structural)]
pub enum NodeGeometry {
    Point(Vector2),
}

#[derive(Clone, Copy, Debug, PartialEq, Eq, Structural)]
pub struct PolyLineNode {
    pub geometry: Option<NodeGeometry>,
}

#[derive(Debug)]
pub struct PolyLine {
    pub nodes: Vec<PolyLineNode>,
    pub closed: bool,
}

#[derive(Debug)]
pub struct PolygonWithHoles {
    pub outline: Option<PolyLine>,
    pub holes: Vec<PolyLine>,
}

#[derive(Debug)]
pub struct PolySet {
    pub polygons: Vec<PolygonWithHoles>,
}

#[derive(Debug)]
pub enum Geometry {
    Segment(GraphicSegmentAttributes),
    Rectangle(GraphicRectangleAttributes),
    Circle(GraphicCircleAttributes),
    Arc(GraphicArcAttributes),
    Polygon(PolySet),
}

#[derive(Debug)]
pub struct GraphicShape {
    pub attributes: Option<GraphicAttributes>,
    pub geometry: Option<Geometry>,
}

#[derive(Debug)]
pub struct BoardGraphicShape {
    pub shape: Option<GraphicShape>,
    pub layer: BoardLayer,
    pub net: Option<Net>,
    pub id: Option<Kiid>,
    pub locked: LockedState,
}

#[derive(Clone, Copy, Debug, PartialEq, Eq, Structural)]
pub enum HorizontalAlignment {
    HaLeft,
    HaCenter,
    HaRight,
}

#[derive(Clone, Copy, Debug, PartialEq, Eq, Structural)]
pub enum VerticalAlignment {
    VaTop,
    VaCenter,
    VaBottom,
}

#[derive(Debug)]
pub struct TextAttributes {
    pub font_name: String,
    pub horizontal_alignment: HorizontalAlignment,
    pub vertical_alignment: VerticalAlignment,
    pub angle: Option<Angle>,
    pub line_spacing: Real,
    pub stroke_width: Option<Distance>,
    pub italic: bool,
    pub bold: bool,
    pub underlined: bool,
    pub visible: bool,
    pub mirrored: bool,
    pub multiline: bool,
    pub keep_upright: bool,
    pub size: Option<Vector2>,
}

#[derive(Debug)]
pub struct Text {
    pub position: Option<Vector2>,
    pub attributes: Option<TextAttributes>,
    pub text: String,
    pub hyperlink: String,
}

#[derive(Debug)]
pub struct BoardText {
    pub id: Option<Kiid>,
    pub text: Option<Text>,
    pub layer: BoardLayer,
    pub knockout: bool,
    pub locked: LockedState,
}

// ------------------------------------------------------------ what callers get

#[derive(Debug)]
pub struct IpcNet {
    pub name: String,
    pub netcode: i32,
}

/// A footprint on the board.
#[derive(Debug)]
pub struct IpcFootprint {
    pub reference: String,
    pub value: String,
    /// `library:entry`, or empty.
    pub footprint: String,
    pub position: Vector2,
    pub rotation: Real,
    pub layer: String,
    pub kiid: String,
}

/// A track segment on the board.
#[derive(Debug)]
pub struct IpcTrack {
    pub net_name: String,
    pub layer: String,
    pub width_nm: i64,
    pub start: Vector2,
    pub end: Vector2,
}

/// The bounding box of the board: the corner it starts at and how far it reaches.
#[derive(Clone, Copy, Debug, PartialEq, Eq, Structural)]
pub struct IpcBoardExtents {
    pub min: Vector2,
    pub size: Vector2,
}

#[derive(Debug)]
pub struct IpcLayer {
    pub name: String,
    pub id: i32,
    pub kind: String,
}

// ------------------------------------------------------------ their contents

/// What an `Mm` holds.
pub struct MmModel {
    pub value: Real,
    pub nm: i64,
    pub text: Seq<char>,
}

/// What a `Degrees` holds.
pub struct DegreesModel {
    pub value: Real,
    pub text: Seq<char>,
}

/// What a `Net` holds.
pub struct NetModel {
    pub code: Option<NetCode>,
    pub name: Seq<char>,
}

/// What a `Track` holds.
pub struct TrackModel {
    pub id: Option<Seq<char>>,
    pub start: Option<Vector2>,
    pub end: Option<Vector2>,
    pub width: Option<Distance>,
    pub locked: LockedState,
    pub layer: BoardLayer,
    pub net: Option<NetModel>,
}

/// What an `IpcNet` holds.
pub struct IpcNetModel {
    pub name: Seq<char>,
    pub netcode: i32,
}

/// What an `IpcFootprint` holds.
pub struct IpcFootprintModel {
    pub reference: Seq<char>,
    pub value: Seq<char>,
    pub footprint: Seq<char>,
    pub position: Vector2,
    pub rotation: Real,
    pub layer: Seq<char>,
    pub kiid: Seq<char>,
}

/// What an `IpcTrack` holds.
pub struct IpcTrackModel {
    pub net_name: Seq<char>,
    pub layer: Seq<char>,
    pub width_nm: i64,
    pub start: Vector2,
    pub end: Vector2,
}

/// What an `IpcLayer` holds.
pub struct IpcLayerModel {
    pub name: Seq<char>,
    pub id: i32,
    pub kind: Seq<char>,
}

impl DeepView for Mm {
    type V = MmModel;

    open spec fn deep_view(&self) -> MmModel {
        MmModel { value: self.value, nm: self.nm, text: self.text@ }
    }
}

impl DeepView for Degrees {
    type V = DegreesModel;

    open spec fn deep_view(&self) -> DegreesModel {
        DegreesModel { value: self.value, text: self.text@ }
    }
}

impl DeepView for Kiid {
    type V = Seq<char>;

    open spec fn deep_view(&self) -> Seq<char> {
        self.value@
    }
}

impl DeepView for Net {
    type V = NetModel;

    open spec fn deep_view(&self) -> NetModel {
        NetModel { code: self.code, name: self.name@ }
    }
}

impl DeepView for Track {
    type V = TrackModel;

    open spec fn deep_view(&self) -> TrackModel {
        TrackModel {
            id: self.id.deep_view(),
            start: self.start,
            end: self.end,
            width: self.width,
            locked: self.locked,
            layer: self.layer,
            net: self.net.deep_view(),
        }
    }
}

impl DeepView for IpcNet {
    type V = IpcNetModel;

    open spec fn deep_view(&self) -> IpcNetModel {
        IpcNetModel { name: self.name@, netcode: self.netcode }
    }
}

impl DeepView for IpcFootprint {
    type V = IpcFootprintModel;

    open spec fn deep_view(&self) -> IpcFootprintModel {
        IpcFootprintModel {
            reference: self.reference@,
            value: self.value@,
            footprint: self.footprint@,
            position: self.position,
            rotation: self.rotation,
            layer: self.layer@,
            kiid: self.kiid@,
        }
    }
}

impl DeepView for IpcTrack {
    type V = IpcTrackModel;

    open spec fn deep_view(&self) -> IpcTrackModel {
        IpcTrackModel {
            net_name: self.net_name@,
            layer: self.layer@,
            width_nm: self.width_nm,
            start: self.start,
            end: self.end,
        }
    }
}

impl DeepView for IpcBoardExtents {
    type V = IpcBoardExtents;

    open spec fn deep_view(&self) -> IpcBoardExtents {
        *self
    }
}

impl DeepView for IpcLayer {
    type V = IpcLayerModel;

    open spec fn deep_view(&self) -> IpcLayerModel {
        IpcLayerModel { name: self.name@, id: self.id, kind: self.kind@ }
    }
}

} // verus!
