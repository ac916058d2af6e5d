//! How an operation of the client is carried on.
//!
//! An operation neither reads nor sends. It is a function of the replies heard so far, and
//! says what to do next: put one more request and add the reply to the log (`Step::Ask`), or
//! stop with a result (`Step::Done`). Operations are built from smaller ones: each starts to
//! read the log at a position it is given, and says at which position it has stopped.
//!
//! In contracts the log is a sequence of replies, and a step is described by a `Turn`.
use vstd::prelude::*;

use crate::types::{FootprintInstance, Kiid, Net, Real, Track, TrackModel, Vector2, Via, Zone};
use crate::wire::{Any, AnyModel};

verus! {

// ------------------------------------------------------------ errors

/// Why an operation failed, in words.
#[derive(Debug)]
pub struct IpcError {
    pub text: String,
}

impl View for IpcError {
    type V = Seq<char>;

    open spec fn view(&self) -> Seq<char> {
        self.text@
    }
}

impl Clone for IpcError {
    fn clone(&self) -> (r: Self)
        ensures
            r == *self,
    {
        IpcError { text: self.text.clone() }
    }
}

/// The error with the given text.
pub fn error(text: &str) -> (e: IpcError)
    ensures
        e@ == text@,
{
    IpcError { text: text.to_string() }
}

// ------------------------------------------------------------ commands

/// An open document, as KiCAD names it. `handle` stands for the whole of the name, so that it
/// can be handed back.
#[derive(Debug)]
pub struct DocumentSpecifier {
    pub handle: u64,
    /// The bare file name, if the document is a board.
    pub board_filename: Option<String>,
    /// The directory of the project that the document belongs to.
    pub project_path: Option<String>,
}

fn copy_text(t: &Option<String>) -> (r: Option<String>)
    ensures
        r == *t,
{
    match t {
        Some(s) => Some(s.clone()),
        None => None,
    }
}

impl Clone for DocumentSpecifier {
    fn clone(&self) -> (r: Self)
        ensures
            r == *self,
    {
        DocumentSpecifier {
            handle: self.handle,
            board_filename: copy_text(&self.board_filename),
            project_path: copy_text(&self.project_path),
        }
    }
}

impl DeepView for DocumentSpecifier {
    type V = DocumentSpecifier;

    open spec fn deep_view(&self) -> DocumentSpecifier {
        *self
    }
}

/// What a command on board items applies to.
#[derive(Debug)]
pub struct ItemHeader {
    pub document: DocumentSpecifier,
    /// The item that the items are in, if it is not the document itself.
    pub container: Option<String>,
    /// The fields that matter, if not all of them do.
    pub field_mask: Option<Vec<String>>,
}

impl DeepView for ItemHeader {
    type V = ItemHeader;

    open spec fn deep_view(&self) -> ItemHeader {
        *self
    }
}

/// The kinds of board items that operations ask for. Every other kind is `Other`, with its
/// number.
#[derive(Clone, Copy, Debug, PartialEq, Eq, Structural)]
pub enum KiCadObjectType {
    KotPcbFootprint,
    KotPcbTrace,
    KotPcbVia,
    KotPcbZone,
    Other(i32),
}

/// The kinds of documents. Every other kind is `Other`, with its number.
#[derive(Clone, Copy, Debug, PartialEq, Eq, Structural)]
pub enum DocumentType {
    DoctypePcb,
    Other(i32),
}

/// What a bounding box encloses of an item. Every other mode is `Other`, with its number.
#[derive(Clone, Copy, Debug, PartialEq, Eq, Structural)]
pub enum BoundingBoxMode {
    /// The item without its texts.
    BbmItemOnly,
    Other(i32),
}

/// How a commit ends.
#[derive(Clone, Copy, Debug, PartialEq, Eq, Structural)]
pub enum CommitAction {
    /// The changes stay.
    CmaCommit,
    /// The changes are rolled back.
    CmaDrop,
    /// Any other ending, with its number.
    Other(i32),
}

/// A command to KiCAD.
#[derive(Debug)]
pub enum Command {
    Ping,
    GetOpenDocuments { document_type: DocumentType },
    /// An empty filter lets the nets of every class pass.
    GetNets { board: DocumentSpecifier, netclass_filter: Vec<String> },
    GetItems { header: ItemHeader, kind: KiCadObjectType },
    GetItemsById { header: ItemHeader, ids: Vec<String> },
    CreateItems { header: ItemHeader, items: Vec<Any>, container: Option<String> },
    UpdateItems { header: ItemHeader, items: Vec<Any> },
    DeleteItems { header: ItemHeader, ids: Vec<String> },
    /// No zones stand for all of them.
    RefillZones { board: DocumentSpecifier, zones: Vec<String> },
    SaveDocument { document: DocumentSpecifier },
    SaveDocumentToString { document: DocumentSpecifier },
    RevertDocument { document: DocumentSpecifier },
    BeginCommit,
    EndCommit { id: String, action: CommitAction, message: String },
    /// No items stand for all of them.
    GetBoundingBox { header: ItemHeader, item_ids: Vec<String>, mode: BoundingBoxMode },
    GetBoardEnabledLayers { board: DocumentSpecifier },
    RunAction { name: String },
}

/// What a `Command` holds.
pub enum CommandModel {
    Ping,
    GetOpenDocuments { document_type: DocumentType },
    GetNets { board: DocumentSpecifier, netclass_filter: Seq<Seq<char>> },
    GetItems { header: ItemHeader, kind: KiCadObjectType },
    GetItemsById { header: ItemHeader, ids: Seq<Seq<char>> },
    CreateItems { header: ItemHeader, items: Seq<AnyModel>, container: Option<Seq<char>> },
    UpdateItems { header: ItemHeader, items: Seq<AnyModel> },
    DeleteItems { header: ItemHeader, ids: Seq<Seq<char>> },
    RefillZones { board: DocumentSpecifier, zones: Seq<Seq<char>> },
    SaveDocument { document: DocumentSpecifier },
    SaveDocumentToString { document: DocumentSpecifier },
    RevertDocument { document: DocumentSpecifier },
    BeginCommit,
    EndCommit { id: Seq<char>, action: CommitAction, message: Seq<char> },
    GetBoundingBox { header: ItemHeader, item_ids: Seq<Seq<char>>, mode: BoundingBoxMode },
    GetBoardEnabledLayers { board: DocumentSpecifier },
    RunAction { name: Seq<char> },
}

impl DeepView for Command {
    type V = CommandModel;

    open spec fn deep_view(&self) -> CommandModel {
        match *self {
            Command::Ping => CommandModel::Ping,
            Command::GetOpenDocuments { document_type } => CommandModel::GetOpenDocuments {
                document_type,
            },
            Command::GetNets { board, netclass_filter } => CommandModel::GetNets {
                board,
                netclass_filter: netclass_filter.deep_view(),
            },
            Command::GetItems { header, kind } => CommandModel::GetItems { header, kind },
            Command::GetItemsById { header, ids } => CommandModel::GetItemsById {
                header,
                ids: ids.deep_view(),
            },
            Command::CreateItems { header, items, container } => CommandModel::CreateItems {
                header,
                items: items.deep_view(),
                container: container.deep_view(),
            },
            Command::UpdateItems { header, items } => CommandModel::UpdateItems {
                header,
                items: items.deep_view(),
            },
            Command::DeleteItems { header, ids } => CommandModel::DeleteItems {
                header,
                ids: ids.deep_view(),
            },
            Command::RefillZones { board, zones } => CommandModel::RefillZones {
                board,
                zones: zones.deep_view(),
            },
            Command::SaveDocument { document } => CommandModel::SaveDocument { document },
            Command::SaveDocumentToString { document } => CommandModel::SaveDocumentToString {
                document,
            },
            Command::RevertDocument { document } => CommandModel::RevertDocument { document },
            Command::BeginCommit => CommandModel::BeginCommit,
            Command::EndCommit { id, action, message } => CommandModel::EndCommit {
                id: id@,
                action,
                message: message@,
            },
            Command::GetBoundingBox { header, item_ids, mode } => CommandModel::GetBoundingBox {
                header,
                item_ids: item_ids.deep_view(),
                mode,
            },
            Command::GetBoardEnabledLayers { board } => CommandModel::GetBoardEnabledLayers {
                board,
            },
            Command::RunAction { name } => CommandModel::RunAction { name: name@ },
        }
    }
}

impl CommandModel {
    /// The full name of the command's message type.
    pub open spec fn message_type(self) -> Seq<char> {
        match self {
            CommandModel::Ping => "kiapi.common.commands.Ping"@,
            CommandModel::GetOpenDocuments { .. } => "kiapi.common.commands.GetOpenDocuments"@,
            CommandModel::GetNets { .. } => "kiapi.board.commands.GetNets"@,
            CommandModel::GetItems { .. } => "kiapi.common.commands.GetItems"@,
            CommandModel::GetItemsById { .. } => "kiapi.common.commands.GetItemsById"@,
            CommandModel::CreateItems { .. } => "kiapi.common.commands.CreateItems"@,
            CommandModel::UpdateItems { .. } => "kiapi.common.commands.UpdateItems"@,
            CommandModel::DeleteItems { .. } => "kiapi.common.commands.DeleteItems"@,
            CommandModel::RefillZones { .. } => "kiapi.board.commands.RefillZones"@,
            CommandModel::SaveDocument { .. } => "kiapi.common.commands.SaveDocument"@,
            CommandModel::SaveDocumentToString { .. } =>
                "kiapi.common.commands.SaveDocumentToString"@,
            CommandModel::RevertDocument { .. } => "kiapi.common.commands.RevertDocument"@,
            CommandModel::BeginCommit => "kiapi.common.commands.BeginCommit"@,
            CommandModel::EndCommit { .. } => "kiapi.common.commands.EndCommit"@,
            CommandModel::GetBoundingBox { .. } => "kiapi.common.commands.GetBoundingBox"@,
            CommandModel::GetBoardEnabledLayers { .. } =>
                "kiapi.board.commands.GetBoardEnabledLayers"@,
            CommandModel::RunAction { .. } => "kiapi.common.commands.RunAction"@,
        }
    }

    /// The command changes the board, and must stand inside a commit.
    pub open spec fn is_edit(self) -> bool {
        ||| self is CreateItems
        ||| self is UpdateItems
        ||| self is DeleteItems
        ||| self is RefillZones
    }
}

impl Command {
    /// The full name of the command's message type.
    pub fn message_type(&self) -> (name: &'static str)
        ensures
            name@ == self.deep_view().message_type(),
    {
        match self {
            Command::Ping => "kiapi.common.commands.Ping",
            Command::GetOpenDocuments { .. } => "kiapi.common.commands.GetOpenDocuments",
            Command::GetNets { .. } => "kiapi.board.commands.GetNets",
            Command::GetItems { .. } => "kiapi.common.commands.GetItems",
            Command::GetItemsById { .. } => "kiapi.common.commands.GetItemsById",
            Command::CreateItems { .. } => "kiapi.common.commands.CreateItems",
            Command::UpdateItems { .. } => "kiapi.common.commands.UpdateItems",
            Command::DeleteItems { .. } => "kiapi.common.commands.DeleteItems",
            Command::RefillZones { .. } => "kiapi.board.commands.RefillZones",
            Command::SaveDocument { .. } => "kiapi.common.commands.SaveDocument",
            Command::SaveDocumentToString { .. } => "kiapi.common.commands.SaveDocumentToString",
            Command::RevertDocument { .. } => "kiapi.common.commands.RevertDocument",
            Command::BeginCommit => "kiapi.common.commands.BeginCommit",
            Command::EndCommit { .. } => "kiapi.common.commands.EndCommit",
            Command::GetBoundingBox { .. } => "kiapi.common.commands.GetBoundingBox",
            Command::GetBoardEnabledLayers { .. } => "kiapi.board.commands.GetBoardEnabledLayers",
            Command::RunAction { .. } => "kiapi.common.commands.RunAction",
        }
    }
}

// ------------------------------------------------------------ requests

/// A change to a placed footprint. What the footprint consists of is given in board
/// coordinates, so it is moved along with the footprint itself.
#[derive(Clone, Copy, Debug, PartialEq, Eq, Structural)]
pub enum Edit {
    /// Set the position, and shift the parts.
    Move { position: Vector2, dx_nm: i64, dy_nm: i64 },
    /// Set the orientation, and turn the parts around `center` by the difference of the two
    /// angles.
    Rotate { angle: Real, from: Real, center: Vector2 },
}

/// Something to be done outside, and to be replied to.
#[derive(Debug)]
pub enum Request {
    /// Send a command to KiCAD.
    Send(Command),
    /// Wait for the lock on board files that every save, splice and revert is done under.
    Lock,
    /// Release that lock.
    Unlock,
    ReadText { path: String },
    ReadBytes { path: String },
    WriteText { path: String, text: String },
    WriteBytes { path: String, bytes: Vec<u8> },
    /// The path of a file in a directory, as text.
    JoinPath { dir: String, file: String },
    /// Whether two paths, each resolved if it can be, are the same.
    SameFile { requested: String, open: String },
    /// An environment variable.
    EnvVar { name: String },
    /// A fresh identifier.
    NewUuid,
    /// The head of the S-expression that a text is.
    ParseHead { text: String },
    /// Nanometres as text, in millimetres.
    ShowMm { nm: i64 },
    /// A float as text.
    ShowReal { value: Real },
    /// Whether a reported position is the requested one, to a micrometre.
    NearMm { position: Vector2, x: Real, y: Real },
    /// Whether two angles in degrees are the same up to whole turns, to a thousandth.
    SameAngle { found: Real, wanted: Real },
    /// The encoding of a track.
    EncodeTrack(Track),
    /// The encoding of a placed footprint after a change.
    EditFootprint { item: Any, edit: Edit },
    /// Start to measure time.
    StartTimer,
    /// Whether this much time has passed since the timer was started.
    Expired { millis: u64 },
    Sleep { millis: u64 },
    Print { line: String },
}

/// What a `Request` holds.
pub enum Query {
    Send(CommandModel),
    Lock,
    Unlock,
    ReadText { path: Seq<char> },
    ReadBytes { path: Seq<char> },
    WriteText { path: Seq<char>, text: Seq<char> },
    WriteBytes { path: Seq<char>, bytes: Seq<u8> },
    JoinPath { dir: Seq<char>, file: Seq<char> },
    SameFile { requested: Seq<char>, open: Seq<char> },
    EnvVar { name: Seq<char> },
    NewUuid,
    ParseHead { text: Seq<char> },
    ShowMm { nm: i64 },
    ShowReal { value: Real },
    NearMm { position: Vector2, x: Real, y: Real },
    SameAngle { found: Real, wanted: Real },
    EncodeTrack(TrackModel),
    EditFootprint { item: AnyModel, edit: Edit },
    StartTimer,
    Expired { millis: u64 },
    Sleep { millis: u64 },
    Print { line: Seq<char> },
}

impl DeepView for Request {
    type V = Query;

    open spec fn deep_view(&self) -> Query {
        match *self {
            Request::Send(command) => Query::Send(command.deep_view()),
            Request::Lock => Query::Lock,
            Request::Unlock => Query::Unlock,
            Request::ReadText { path } => Query::ReadText { path: path@ },
            Request::ReadBytes { path } => Query::ReadBytes { path: path@ },
            Request::WriteText { path, text } => Query::WriteText { path: path@, text: text@ },
            Request::WriteBytes { path, bytes } => Query::WriteBytes { path: path@, bytes: bytes@ },
            Request::JoinPath { dir, file } => Query::JoinPath { dir: dir@, file: file@ },
            Request::SameFile { requested, open } => Query::SameFile {
                requested: requested@,
                open: open@,
            },
            Request::EnvVar { name } => Query::EnvVar { name: name@ },
            Request::NewUuid => Query::NewUuid,
            Request::ParseHead { text } => Query::ParseHead { text: text@ },
            Request::ShowMm { nm } => Query::ShowMm { nm },
            Request::ShowReal { value } => Query::ShowReal { value },
            Request::NearMm { position, x, y } => Query::NearMm { position, x, y },
            Request::SameAngle { found, wanted } => Query::SameAngle { found, wanted },
            Request::EncodeTrack(track) => Query::EncodeTrack(track.deep_view()),
            Request::EditFootprint { item, edit } => Query::EditFootprint {
                item: item.deep_view(),
                edit,
            },
            Request::StartTimer => Query::StartTimer,
            Request::Expired { millis } => Query::Expired { millis },
            Request::Sleep { millis } => Query::Sleep { millis },
            Request::Print { line } => Query::Print { line: line@ },
        }
    }
}

// ------------------------------------------------------------ replies

/// A code by which KiCAD says how something went.
#[derive(Debug)]
pub enum StatusCode {
    /// The one that says that all is well.
    Okay,
    /// Any other, with its name.
    Other(String),
}

/// How one item fared. The code is `None` if its number has no name.
#[derive(Debug)]
pub struct ItemStatus {
    pub code: Option<StatusCode>,
    pub error_message: String,
}

/// The outcome for one item that was to be created or updated.
#[derive(Debug)]
pub struct ItemResult {
    pub status: Option<ItemStatus>,
    pub item: Option<Any>,
}

/// A board item, read as the kind that was asked for if it can be.
#[derive(Debug)]
pub struct Item {
    pub any: Any,
    pub body: ItemBody,
}

#[derive(Debug)]
pub enum ItemBody {
    Footprint(FootprintInstance),
    Track(Track),
    Via(Via),
    Zone(Zone),
    /// It cannot be read as the kind that was asked for.
    Unreadable,
}

/// A rectangle, by its corner and size.
#[derive(Clone, Copy, Debug, PartialEq, Eq, Structural)]
pub struct Box2 {
    pub position: Option<Vector2>,
    pub size: Option<Vector2>,
}

/// A layer by its number, and by its name if the number has one.
#[derive(Debug)]
pub struct LayerId {
    pub id: i32,
    pub name: Option<String>,
}

/// The reply to a request.
#[derive(Debug)]
pub enum Reply {
    /// It could not be done.
    Failed(IpcError),
    /// It was done, and there is nothing more to say.
    Nothing,
    /// It was done, and what came back cannot be read.
    Unreadable,
    Documents(Vec<DocumentSpecifier>),
    Nets(Vec<Net>),
    Items(Vec<Item>),
    /// Items were created or updated. The status is `None` if its number has no name.
    Edited { status: Option<StatusCode>, results: Vec<ItemResult> },
    /// Items were deleted. A status or outcome is `None` if its number has no name.
    Deleted { status: Option<StatusCode>, outcomes: Vec<Option<StatusCode>> },
    /// A commit was begun.
    Commit { id: Option<Kiid> },
    Boxes(Vec<Box2>),
    Layers(Vec<LayerId>),
    Text(String),
    /// The head of an S-expression, if the text is one and has a head.
    Head(Option<String>),
    Bytes(Vec<u8>),
    Flag(bool),
}

impl DeepView for Reply {
    type V = Reply;

    open spec fn deep_view(&self) -> Reply {
        *self
    }
}

/// The items that a reply lists.
pub struct ItemList<'a> {
    pub items: Option<&'a Vec<Item>>,
}

impl<'a> DeepView for ItemList<'a> {
    type V = Seq<Item>;

    open spec fn deep_view(&self) -> Seq<Item> {
        match self.items {
            Some(v) => v@,
            None => seq![],
        }
    }
}

impl<'a> ItemList<'a> {
    pub fn len(&self) -> (n: usize)
        ensures
            n == self.deep_view().len(),
    {
        match self.items {
            Some(v) => v.len(),
            None => 0,
        }
    }

    pub fn get(&self, i: usize) -> (item: &'a Item)
        requires
            i < self.deep_view().len(),
        ensures
            *item == self.deep_view()[i as int],
    {
        match self.items {
            Some(v) => &v[i],
            None => vstd::pervasive::unreached(),
        }
    }
}

// ------------------------------------------------------------ steps

/// What an operation does next.
pub enum Step<T> {
    /// Put this request, and add the reply to the log.
    Ask(Request),
    /// Stop with this result. The replies before this position have been used.
    Done(Result<T, IpcError>, usize),
}

/// What a `Step` holds.
pub enum Turn<T> {
    Ask(Query),
    Done(Result<T, Seq<char>>, int),
}

impl<T: DeepView> DeepView for Step<T> {
    type V = Turn<T::V>;

    open spec fn deep_view(&self) -> Turn<T::V> {
        match *self {
            Step::Ask(request) => Turn::Ask(request.deep_view()),
            Step::Done(r, n) => Turn::Done(outcome(r), n as int),
        }
    }
}

/// What a result holds.
pub open spec fn outcome<T: DeepView>(r: Result<T, IpcError>) -> Result<T::V, Seq<char>> {
    match r {
        Ok(v) => Ok(v.deep_view()),
        Err(e) => Err(e@),
    }
}

impl<T> Step<T> {
    /// A result comes at a position in the log, at or after `at`.
    pub open spec fn within(self, at: int, log: Seq<Reply>) -> bool {
        self matches Step::Done(_, n) ==> at <= n <= log.len()
    }
}

impl<T> Turn<T> {
    /// Goes on with `next` where this part has given a value.
    pub open spec fn and_then<U>(self, next: spec_fn(T, int) -> Turn<U>) -> Turn<U> {
        match self {
            Turn::Ask(query) => Turn::Ask(query),
            Turn::Done(Ok(v), n) => next(v, n),
            Turn::Done(Err(e), n) => Turn::Done(Err(e), n),
        }
    }
}

/// One request: if the log goes on at `at`, its reply stands there.
pub open spec fn exchange(query: Query, log: Seq<Reply>, at: int) -> Turn<Reply> {
    if 0 <= at < log.len() {
        match log[at] {
            Reply::Failed(e) => Turn::Done(Err(e@), at + 1),
            reply => Turn::Done(Ok(reply), at + 1),
        }
    } else {
        Turn::Ask(query)
    }
}

/// Looks up the reply to `request` at `at`.
pub fn hear<'a>(request: Request, log: &'a Vec<Reply>, at: usize) -> (s: Step<&'a Reply>)
    requires
        at <= log@.len(),
    ensures
        s.deep_view() == exchange(request.deep_view(), log@, at as int),
        s.within(at as int, log@),
{
    if at < log.len() {
        match &log[at] {
            Reply::Failed(e) => Step::Done(Err(e.clone()), at + 1),
            reply => Step::Done(Ok(reply), at + 1),
        }
    } else {
        Step::Ask(request)
    }
}

/// The text for a reply whose content cannot be read, or is not of the kind asked for.
pub open spec fn unreadable() -> Seq<char> {
    "Failed to decode protobuf Any body"@
}

/// The error for a reply whose content cannot be read, or is not of the kind asked for.
pub fn unreadable_error() -> (e: IpcError)
    ensures
        e@ == unreadable(),
{
    error("Failed to decode protobuf Any body")
}

} // verus!
