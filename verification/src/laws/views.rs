//! What values are taken for in contracts: themselves, field by field.
use vstd::prelude::*;

use crate::talk::{exchange, Command, CommandModel, Query, Reply, Request, Step, Turn};
use crate::transport::{ApiRequest, WireQuery, WireRequest, WireStep, WireTurn};
use crate::types::{Degrees, IpcFootprint, IpcLayer, IpcNet, IpcTrack, Kiid, Mm, Net, Track};
use crate::wire::{Any, AnyModel};

verus! {

/// Lengths, angles, nets and identifiers are taken for what they hold.
pub proof fn plain_values_are_taken_as_they_are(
    mm: Mm,
    degrees: Degrees,
    net: Net,
    id: Kiid,
    any: Any,
)
    ensures
        mm.deep_view().value == mm.value,
        mm.deep_view().nm == mm.nm,
        mm.deep_view().text == mm.text@,
        degrees.deep_view().value == degrees.value,
        degrees.deep_view().text == degrees.text@,
        net.deep_view().code == net.code,
        net.deep_view().name == net.name@,
        id.deep_view() == id.value@,
        any.deep_view().type_url == any.type_url@,
        any.deep_view().value == any.value@,
{
}

/// What callers get is taken for what it holds.
pub proof fn results_are_taken_as_they_are(
    net: IpcNet,
    footprint: IpcFootprint,
    track: IpcTrack,
    layer: IpcLayer,
)
    ensures
        net.deep_view().name == net.name@,
        net.deep_view().netcode == net.netcode,
        footprint.deep_view().reference == footprint.reference@,
        footprint.deep_view().value == footprint.value@,
        footprint.deep_view().footprint == footprint.footprint@,
        footprint.deep_view().position == footprint.position,
        footprint.deep_view().rotation == footprint.rotation,
        footprint.deep_view().layer == footprint.layer@,
        footprint.deep_view().kiid == footprint.kiid@,
        track.deep_view().net_name == track.net_name@,
        track.deep_view().layer == track.layer@,
        track.deep_view().width_nm == track.width_nm,
        track.deep_view().start == track.start,
        track.deep_view().end == track.end,
        layer.deep_view().name == layer.name@,
        layer.deep_view().id == layer.id,
        layer.deep_view().kind == layer.kind@,
{
}

/// A track that is to be encoded is taken for what it holds.
pub proof fn a_track_is_taken_as_it_is(track: Track)
    ensures
        match track.id {
            Some(id) => track.deep_view().id == Some(id.value@),
            None => track.deep_view().id is None,
        },
        track.deep_view().start == track.start,
        track.deep_view().end == track.end,
        track.deep_view().width == track.width,
        track.deep_view().locked == track.locked,
        track.deep_view().layer == track.layer,
        match track.net {
            Some(net) => track.deep_view().net matches Some(seen) && seen.name == net.name@
                && seen.code == net.code,
            None => track.deep_view().net is None,
        },
{
}

/// The texts are those of the list, one for each and in order.
pub open spec fn are_texts(seen: Seq<Seq<char>>, texts: Seq<String>) -> bool {
    &&& seen.len() == texts.len()
    &&& forall|i: int| 0 <= i < texts.len() ==> seen[i] == (#[trigger] texts[i])@
}

/// The messages are those of the list, one for each and in order.
pub open spec fn are_messages(seen: Seq<AnyModel>, messages: Seq<Any>) -> bool {
    &&& seen.len() == messages.len()
    &&& forall|i: int|
        0 <= i < messages.len() ==> seen[i].type_url == (#[trigger] messages[i]).type_url@
            && seen[i].value == messages[i].value@
}

/// A command is taken for what it holds, all of it.
pub proof fn a_command_is_taken_as_it_is(command: Command)
    ensures
        match command {
            Command::Ping => command.deep_view() is Ping,
            Command::GetOpenDocuments { document_type } => command.deep_view()
                == CommandModel::GetOpenDocuments { document_type },
            Command::GetNets { board, netclass_filter } => command.deep_view() matches
                CommandModel::GetNets { board: b, netclass_filter: f } && b == board && are_texts(
                f,
                netclass_filter@,
            ),
            Command::GetItems { header, kind } => command.deep_view() == CommandModel::GetItems {
                header,
                kind,
            },
            Command::GetItemsById { header, ids } => command.deep_view() matches
                CommandModel::GetItemsById { header: h, ids: i } && h == header && are_texts(
                i,
                ids@,
            ),
            Command::CreateItems { header, items, container } => command.deep_view() matches
                CommandModel::CreateItems { header: h, items: i, container: c } && h == header
                && are_messages(i, items@) && match container {
                Some(id) => c == Some(id@),
                None => c is None,
            },
            Command::UpdateItems { header, items } => command.deep_view() matches
                CommandModel::UpdateItems { header: h, items: i } && h == header && are_messages(
                i,
                items@,
            ),
            Command::DeleteItems { header, ids } => command.deep_view() matches
                CommandModel::DeleteItems { header: h, ids: i } && h == header && are_texts(
                i,
                ids@,
            ),
            Command::RefillZones { board, zones } => command.deep_view() matches
                CommandModel::RefillZones { board: b, zones: z } && b == board && are_texts(
                z,
                zones@,
            ),
            Command::SaveDocument { document } => command.deep_view()
                == CommandModel::SaveDocument { document },
            Command::SaveDocumentToString { document } => command.deep_view()
                == CommandModel::SaveDocumentToString { document },
            Command::RevertDocument { document } => command.deep_view()
                == CommandModel::RevertDocument { document },
            Command::BeginCommit => command.deep_view() is BeginCommit,
            Command::EndCommit { id, action, message } => command.deep_view()
                == CommandModel::EndCommit { id: id@, action, message: message@ },
            Command::GetBoundingBox { header, item_ids, mode } => command.deep_view() matches
                CommandModel::GetBoundingBox { header: h, item_ids: i, mode: m } && h == header
                && are_texts(i, item_ids@) && m == mode,
            Command::GetBoardEnabledLayers { board } => command.deep_view()
                == CommandModel::GetBoardEnabledLayers { board },
            Command::RunAction { name } => command.deep_view() == CommandModel::RunAction {
                name: name@,
            },
        },
{
}

/// A request is taken for what it holds, all of it.
pub proof fn a_request_is_taken_as_it_is(request: Request)
    ensures
        match request {
            Request::Send(command) => request.deep_view() == Query::Send(command.deep_view()),
            Request::Lock => request.deep_view() is Lock,
            Request::Unlock => request.deep_view() is Unlock,
            Request::ReadText { path } => request.deep_view() == Query::ReadText { path: path@ },
            Request::ReadBytes { path } => request.deep_view() == Query::ReadBytes { path: path@ },
            Request::WriteText { path, text } => request.deep_view() == Query::WriteText {
                path: path@,
                text: text@,
            },
            Request::WriteBytes { path, bytes } => request.deep_view() == Query::WriteBytes {
                path: path@,
                bytes: bytes@,
            },
            Request::JoinPath { dir, file } => request.deep_view() == Query::JoinPath {
                dir: dir@,
                file: file@,
            },
            Request::SameFile { requested, open } => request.deep_view() == Query::SameFile {
                requested: requested@,
                open: open@,
            },
            Request::EnvVar { name } => request.deep_view() == Query::EnvVar { name: name@ },
            Request::NewUuid => request.deep_view() is NewUuid,
            Request::ParseHead { text } => request.deep_view() == Query::ParseHead { text: text@ },
            Request::ShowMm { nm } => request.deep_view() == Query::ShowMm { nm },
            Request::ShowReal { value } => request.deep_view() == Query::ShowReal { value },
            Request::NearMm { position, x, y } => request.deep_view() == Query::NearMm {
                position,
                x,
                y,
            },
            Request::SameAngle { found, wanted } => request.deep_view() == Query::SameAngle {
                found,
                wanted,
            },
            Request::EncodeTrack(track) => request.deep_view() == Query::EncodeTrack(
                track.deep_view(),
            ),
            Request::EditFootprint { item, edit } => request.deep_view() matches
                Query::EditFootprint { item: i, edit: e } && i.type_url == item.type_url@ && i.value
                == item.value@ && e == edit,
            Request::StartTimer => request.deep_view() is StartTimer,
            Request::Expired { millis } => request.deep_view() == Query::Expired { millis },
            Request::Sleep { millis } => request.deep_view() == Query::Sleep { millis },
            Request::Print { line } => request.deep_view() == Query::Print { line: line@ },
        },
{
}

/// A step is taken for the request that it asks for, or for the value or the text of the error that
/// it stops with, at the same position.
pub proof fn a_step_is_taken_as_it_is<T: DeepView>(step: Step<T>)
    ensures
        match step {
            Step::Ask(request) => step.deep_view() == Turn::<T::V>::Ask(request.deep_view()),
            Step::Done(Ok(value), n) => step.deep_view() == Turn::Done(
                Ok::<T::V, Seq<char>>(value.deep_view()),
                n as int,
            ),
            Step::Done(Err(e), n) => step.deep_view() == Turn::Done(
                Err::<T::V, Seq<char>>(e.text@),
                n as int,
            ),
        },
{
}

/// A request is put where the log ends; where it goes on, the reply stands there, and a failure is
/// one.
pub proof fn a_request_is_put_once(query: Query, log: Seq<Reply>, at: int)
    requires
        0 <= at <= log.len(),
    ensures
        at == log.len() ==> exchange(query, log, at) == Turn::<Reply>::Ask(query),
        at < log.len() ==> match log[at] {
            Reply::Failed(e) => exchange(query, log, at) == Turn::Done(
                Err::<Reply, Seq<char>>(e.text@),
                at + 1,
            ),
            _ => exchange(query, log, at) == Turn::Done(Ok::<Reply, Seq<char>>(log[at]), at + 1),
        },
{
}

/// What is done with the socket is taken for what it is.
pub proof fn a_step_on_the_wire_is_taken_as_it_is(
    request: WireRequest,
    sent: ApiRequest,
    step: WireStep,
)
    ensures
        sent.deep_view().kicad_token == sent.kicad_token@,
        sent.deep_view().client_name == sent.client_name@,
        sent.deep_view().message.type_url == sent.message.type_url@,
        sent.deep_view().message.value == sent.message.value@,
        match request {
            WireRequest::OpenSocket => request.deep_view() is OpenSocket,
            WireRequest::SetSendTimeout { millis } => request.deep_view()
                == WireQuery::SetSendTimeout { millis },
            WireRequest::SetRecvTimeout { millis } => request.deep_view()
                == WireQuery::SetRecvTimeout { millis },
            WireRequest::Dial { url } => request.deep_view() == WireQuery::Dial { url: url@ },
            WireRequest::Sleep { millis } => request.deep_view() == WireQuery::Sleep { millis },
            WireRequest::Transmit(api) => request.deep_view() == WireQuery::Transmit(
                api.deep_view(),
            ),
            WireRequest::Receive => request.deep_view() is Receive,
        },
        match step {
            WireStep::Ask(asked) => step.deep_view() == WireTurn::Ask(asked.deep_view()),
            WireStep::Done(Ok(Some(any))) => step.deep_view() == WireTurn::Done(
                Ok::<Option<AnyModel>, Seq<char>>(Some(any.deep_view())),
            ),
            WireStep::Done(Ok(None)) => step.deep_view() == WireTurn::Done(
                Ok::<Option<AnyModel>, Seq<char>>(None),
            ),
            WireStep::Done(Err(e)) => step.deep_view() == WireTurn::Done(
                Err::<Option<AnyModel>, Seq<char>>(e.text@),
            ),
        },
{
}

} // verus!
