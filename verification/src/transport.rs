//! One command to KiCAD and the answer to it, over a socket.
//!
//! The socket is opened, dialled and closed outside. What is done with it, in which order, how
//! often a connection is tried and what the answer means is said here, in the manner of the
//! operations: from the replies heard so far.
use vstd::prelude::*;
use vstd::string::*;

use crate::client::KiCadIpcClient;
use crate::talk::{error, outcome, IpcError};
use crate::wire::{copy_any, pack_any, packed, Any, AnyModel};

verus! {

/// The envelope that a command is sent in.
#[derive(Debug)]
pub struct ApiRequest {
    /// Empty: any instance of KiCAD will do.
    pub kicad_token: String,
    pub client_name: String,
    pub message: Any,
}

/// What an `ApiRequest` holds.
pub struct ApiRequestModel {
    pub kicad_token: Seq<char>,
    pub client_name: Seq<char>,
    pub message: AnyModel,
}

impl DeepView for ApiRequest {
    type V = ApiRequestModel;

    open spec fn deep_view(&self) -> ApiRequestModel {
        ApiRequestModel {
            kicad_token: self.kicad_token@,
            client_name: self.client_name@,
            message: self.message.deep_view(),
        }
    }
}

/// A code by which KiCAD says how it took a command.
#[derive(Debug)]
pub enum ApiStatusCode {
    /// All is well.
    AsOk,
    /// Any other, with the names of the variant and of the protocol.
    Other { variant: String, name: String },
}

/// How KiCAD took a command: its code, and a message.
#[derive(Debug)]
pub struct ApiStatus {
    pub code: ApiStatusCode,
    pub error_message: String,
}

/// The envelope that an answer comes in.
#[derive(Debug)]
pub struct ApiResponse {
    pub status: Option<ApiStatus>,
    pub message: Option<Any>,
}

/// Something to be done with the socket.
#[derive(Debug)]
pub enum WireRequest {
    OpenSocket,
    SetSendTimeout { millis: u64 },
    SetRecvTimeout { millis: u64 },
    Dial { url: String },
    Sleep { millis: u64 },
    Transmit(ApiRequest),
    Receive,
}

/// What a `WireRequest` holds.
pub enum WireQuery {
    OpenSocket,
    SetSendTimeout { millis: u64 },
    SetRecvTimeout { millis: u64 },
    Dial { url: Seq<char> },
    Sleep { millis: u64 },
    Transmit(ApiRequestModel),
    Receive,
}

impl DeepView for WireRequest {
    type V = WireQuery;

    open spec fn deep_view(&self) -> WireQuery {
        match *self {
            WireRequest::OpenSocket => WireQuery::OpenSocket,
            WireRequest::SetSendTimeout { millis } => WireQuery::SetSendTimeout { millis },
            WireRequest::SetRecvTimeout { millis } => WireQuery::SetRecvTimeout { millis },
            WireRequest::Dial { url } => WireQuery::Dial { url: url@ },
            WireRequest::Sleep { millis } => WireQuery::Sleep { millis },
            WireRequest::Transmit(request) => WireQuery::Transmit(request.deep_view()),
            WireRequest::Receive => WireQuery::Receive,
        }
    }
}

/// What came of it.
#[derive(Debug)]
pub enum WireReply {
    /// It was done.
    Done,
    /// It could not be done, for this reason.
    Failed(String),
    /// An answer was received.
    Response(ApiResponse),
    /// Something was received that is no answer.
    Unreadable,
}

/// What comes next in sending a command: the next thing to do, or the message in the answer.
pub enum WireStep {
    Ask(WireRequest),
    Done(Result<Option<Any>, IpcError>),
}

/// What a `WireStep` holds.
pub enum WireTurn {
    Ask(WireQuery),
    Done(Result<Option<AnyModel>, Seq<char>>),
}

impl DeepView for WireStep {
    type V = WireTurn;

    open spec fn deep_view(&self) -> WireTurn {
        match *self {
            WireStep::Ask(request) => WireTurn::Ask(request.deep_view()),
            WireStep::Done(r) => WireTurn::Done(outcome(r)),
        }
    }
}

// ------------------------------------------------------------ the answer

/// What the answer amounts to: the message in it, unless its status says that the command
/// failed. An answer without a status is taken to be good.
pub open spec fn answer(response: ApiResponse) -> Result<Option<AnyModel>, Seq<char>> {
    match response.status {
        Some(ApiStatus { code: ApiStatusCode::Other { variant, name }, error_message }) => Err(
            "KiCAD IPC error: "@ + (if error_message@.len() == 0 {
                variant@
            } else {
                error_message@
            }) + " ("@ + name@ + ")"@,
        ),
        _ => Ok(response.message.deep_view()),
    }
}

/// Takes the message out of an answer, or the error that its status stands for.
pub fn read_answer(response: &ApiResponse) -> (r: Result<Option<Any>, IpcError>)
    ensures
        outcome(r) == answer(*response),
{
    if let Some(status) = &response.status {
        if let ApiStatusCode::Other { variant, name } = &status.code {
            let mut text = "KiCAD IPC error: ".to_string();
            if status.error_message.as_str().is_empty() {
                text.append(variant.as_str());
            } else {
                text.append(status.error_message.as_str());
            }
            text.append(" (");
            text.append(name.as_str());
            text.append(")");
            return Err(IpcError { text });
        }
    }
    match &response.message {
        Some(any) => Ok(Some(copy_any(any))),
        None => Ok(None),
    }
}

// ------------------------------------------------------------ connecting

/// The address to dial for a socket path: a path without a scheme is a local socket.
pub open spec fn dial_address(socket_path: Seq<char>) -> Seq<char> {
    if "ipc://"@.is_prefix_of(socket_path) || "tcp://"@.is_prefix_of(socket_path) {
        socket_path
    } else {
        "ipc://"@ + socket_path
    }
}

/// Dialling, from the reply at `at` on, where `attempt` attempts have failed so far. A failed
/// attempt is repeated twice, after 50 and after 100 milliseconds. The result is where the
/// replies go on, once connected.
pub open spec fn dial_turn(
    url: Seq<char>,
    log: Seq<WireReply>,
    at: int,
    attempt: int,
) -> Result<int,WireTurn>
    decreases 2 - attempt,
{
    if !(0 <= at < log.len()) {
        Err(WireTurn::Ask(WireQuery::Dial { url }))
    } else if !(log[at] is Failed) {
        Ok(at + 1)
    } else if attempt >= 2 {
        Err(WireTurn::Done(Err("Cannot connect to KiCAD IPC at "@ + url)))
    } else if at + 1 >= log.len() {
        Err(WireTurn::Ask(WireQuery::Sleep { millis: (50 * (attempt + 1)) as u64 }))
    } else {
        dial_turn(url, log, at + 2, attempt + 1)
    }
}

/// The envelope for the command with the encoding `command`.
pub open spec fn envelope(
    client_name: Seq<char>,
    command: Seq<u8>,
    message_type: Seq<char>,
) -> ApiRequestModel {
    ApiRequestModel {
        kicad_token: seq![],
        client_name,
        message: packed(command, message_type),
    }
}

/// The text for a client that has no socket path.
pub open spec fn not_configured() -> Seq<char> {
    "KiCAD IPC socket path not configured. To fix: (1) in KiCAD, enable Edit > Preferences > Plugins > 'Enable KiCad API' and copy the listed ipc:// address; (2) paste it into the 'IPC Socket' field of the Konnect settings dialog (Tools > External Plugins > Konnect) and save; (3) restart the AI client so the server rereads settings. Alternatively set ipc_socket_path in konnect-settings.json or launch via KiCAD (which sets KICAD_API_SOCKET). Full guide: https://github.com/mixelpixx/Konnect/blob/main/docs/TROUBLESHOOTING.md"@
}

/// Sending the encoded command `command`, given the replies so far: open the socket, bound
/// both directions in time, connect, send, receive, and read the answer.
pub open spec fn send_command_turn(
    client: KiCadIpcClient,
    command: Seq<u8>,
    message_type: Seq<char>,
    log: Seq<WireReply>,
) -> WireTurn {
    if client.socket_path@.len() == 0 {
        WireTurn::Done(Err(not_configured()))
    } else if log.len() <= 0 {
        WireTurn::Ask(WireQuery::OpenSocket)
    } else if log[0] is Failed {
        WireTurn::Done(Err("Failed to create NNG socket"@))
    } else if log.len() <= 1 {
        WireTurn::Ask(WireQuery::SetSendTimeout { millis: 5_000 })
    } else if log[1] is Failed {
        WireTurn::Done(Err("Failed to set NNG send timeout"@))
    } else if log.len() <= 2 {
        WireTurn::Ask(WireQuery::SetRecvTimeout { millis: 30_000 })
    } else if log[2] is Failed {
        WireTurn::Done(Err("Failed to set NNG receive timeout"@))
    } else {
        match dial_turn(dial_address(client.socket_path@), log, 3, 0) {
            Err(turn) => turn,
            Ok(n) => deliver_turn(client, command, message_type, log, n),
        }
    }
}

/// Sending and receiving over an open connection, from the reply at `at` on.
pub open spec fn deliver_turn(
    client: KiCadIpcClient,
    command: Seq<u8>,
    message_type: Seq<char>,
    log: Seq<WireReply>,
    at: int,
) -> WireTurn {
    if log.len() <= at {
        WireTurn::Ask(WireQuery::Transmit(envelope(client.client_name@, command, message_type)))
    } else {
        match log[at] {
            WireReply::Failed(reason) => WireTurn::Done(Err("NNG send failed: "@ + reason@)),
            _ => if log.len() <= at + 1 {
                WireTurn::Ask(WireQuery::Receive)
            } else {
                match log[at + 1] {
                    WireReply::Failed(reason) => WireTurn::Done(
                        Err("NNG recv failed: "@ + reason@),
                    ),
                    WireReply::Response(response) => WireTurn::Done(answer(response)),
                    _ => WireTurn::Done(Err("Failed to decode ApiResponse"@)),
                }
            },
        }
    }
}

fn starts_with(s: &str, prefix: &str) -> (b: bool)
    ensures
        b == prefix@.is_prefix_of(s@),
{
    let n: usize = prefix.unicode_len();
    let m: usize = s.unicode_len();
    if n > m {
        return false;
    }
    let head = s.substring_char(0, n);
    assert(prefix@.is_prefix_of(s@) <==> prefix@ == s@.subrange(0, n as int));
    crate::text::same_text(head, prefix)
}

/// The address to dial for a socket path.
pub fn dial_url(socket_path: &str) -> (url: String)
    ensures
        url@ == dial_address(socket_path@),
{
    if starts_with(socket_path, "ipc://") || starts_with(socket_path, "tcp://") {
        socket_path.to_string()
    } else {
        let mut url = "ipc://".to_string();
        url.append(socket_path);
        url
    }
}

fn failed(log: &Vec<WireReply>, i: usize) -> (b: bool)
    requires
        i < log@.len(),
    ensures
        b == (log@[i as int] is Failed),
{
    match &log[i] {
        WireReply::Failed(_) => true,
        _ => false,
    }
}

fn dial(url: &str, log: &Vec<WireReply>, at: usize) -> (r: Result<usize, WireStep>)
    requires
        at <= log@.len(),
    ensures
        match r {
            Ok(n) => dial_turn(url@, log@, at as int, 0) == Ok::<int, WireTurn>(n as int) && at < n
                <= log@.len(),
            Err(step) => dial_turn(url@, log@, at as int, 0) == Err::<int, WireTurn>(
                step.deep_view(),
            ),
        },
{
    let mut here: usize = at;
    let mut attempt: u64 = 0;
    loop
        invariant
            at <= here <= log@.len(),
            attempt <= 2,
            dial_turn(url@, log@, at as int, 0) == dial_turn(
                url@,
                log@,
                here as int,
                attempt as int,
            ),
        decreases 2 - attempt,
    {
        if here >= log.len() {
            return Err(WireStep::Ask(WireRequest::Dial { url: url.to_string() }));
        }
        if !failed(log, here) {
            return Ok(here + 1);
        }
        if attempt >= 2 {
            let mut text = "Cannot connect to KiCAD IPC at ".to_string();
            text.append(url);
            return Err(WireStep::Done(Err(IpcError { text })));
        }
        if here + 1 >= log.len() {
            return Err(WireStep::Ask(WireRequest::Sleep { millis: 50 * (attempt + 1) }));
        }
        here = here + 2;
        attempt = attempt + 1;
    }
}

impl KiCadIpcClient {
    /// Sends the command with the encoding `command` and the type `message_type`, given the
    /// replies to the requests put so far.
    pub fn send_command(
        &self,
        command: &Vec<u8>,
        message_type: &str,
        log: &Vec<WireReply>,
    ) -> (s: WireStep)
        ensures
            s.deep_view() == send_command_turn(*self, command@, message_type@, log@),
    {
        if self.socket_path.as_str().is_empty() {
            return WireStep::Done(
                Err(
                    error(
                        "KiCAD IPC socket path not configured. To fix: (1) in KiCAD, enable Edit > Preferences > Plugins > 'Enable KiCad API' and copy the listed ipc:// address; (2) paste it into the 'IPC Socket' field of the Konnect settings dialog (Tools > External Plugins > Konnect) and save; (3) restart the AI client so the server rereads settings. Alternatively set ipc_socket_path in konnect-settings.json or launch via KiCAD (which sets KICAD_API_SOCKET). Full guide: https://github.com/mixelpixx/Konnect/blob/main/docs/TROUBLESHOOTING.md",
                    ),
                ),
            );
        }
        if log.len() <= 0 {
            return WireStep::Ask(WireRequest::OpenSocket);
        }
        if failed(log, 0) {
            return WireStep::Done(Err(error("Failed to create NNG socket")));
        }
        if log.len() <= 1 {
            return WireStep::Ask(WireRequest::SetSendTimeout { millis: 5_000 });
        }
        if failed(log, 1) {
            return WireStep::Done(Err(error("Failed to set NNG send timeout")));
        }
        if log.len() <= 2 {
            return WireStep::Ask(WireRequest::SetRecvTimeout { millis: 30_000 });
        }
        if failed(log, 2) {
            return WireStep::Done(Err(error("Failed to set NNG receive timeout")));
        }
        let url = dial_url(self.socket_path.as_str());
        let at: usize = match dial(url.as_str(), log, 3) {
            Ok(n) => n,
            Err(step) => {
                return step;
            },
        };
        if log.len() <= at {
            let request = ApiRequest {
                kicad_token: String::new(),
                client_name: self.client_name.clone(),
                message: pack_any(crate::text::copy_bytes(command), message_type),
            };
            return WireStep::Ask(WireRequest::Transmit(request));
        }
        if let WireReply::Failed(reason) = &log[at] {
            let mut text = "NNG send failed: ".to_string();
            text.append(reason.as_str());
            return WireStep::Done(Err(IpcError { text }));
        }
        if log.len() <= at + 1 {
            return WireStep::Ask(WireRequest::Receive);
        }
        match &log[at + 1] {
            WireReply::Failed(reason) => {
                let mut text = "NNG recv failed: ".to_string();
                text.append(reason.as_str());
                WireStep::Done(Err(IpcError { text }))
            },
            WireReply::Response(response) => WireStep::Done(read_answer(response)),
            _ => WireStep::Done(Err(error("Failed to decode ApiResponse"))),
        }
    }
}

} // verus!
