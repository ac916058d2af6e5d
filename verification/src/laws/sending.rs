//! Sending a command.
use vstd::prelude::*;
use vstd::string::*;

use crate::client::{effective_socket, KiCadIpcClient};
use crate::documents::ping_turn;
use crate::laws::texts::{a_number_is_written_in_decimal_digits, number};
use crate::talk::{CommandModel, Reply, Turn};
use crate::text::decimal;
use crate::transport::{
    answer, dial_address, dial_turn, send_command_turn, ApiResponse, ApiStatusCode, WireQuery,
    WireReply, WireTurn,
};
use crate::wire::AnyModel;

verus! {

/// A client without a socket path asks for nothing, and fails.
pub proof fn an_unconfigured_client_asks_for_nothing(
    client: KiCadIpcClient,
    command: Seq<u8>,
    message_type: Seq<char>,
    log: Seq<WireReply>,
)
    requires
        client.socket_path@.len() == 0,
    ensures
        send_command_turn(client, command, message_type, log) is Done,
        send_command_turn(client, command, message_type, log)->Done_0 is Err,
{
}

/// Once sending a command is done, more replies change nothing.
pub proof fn a_command_that_is_sent_stays_sent(
    client: KiCadIpcClient,
    command: Seq<u8>,
    message_type: Seq<char>,
    log: Seq<WireReply>,
    longer: Seq<WireReply>,
)
    requires
        log.is_prefix_of(longer),
        send_command_turn(client, command, message_type, log) is Done,
    ensures
        send_command_turn(client, command, message_type, longer) == send_command_turn(
            client,
            command,
            message_type,
            log,
        ),
{
    assert forall|i: int| 0 <= i < log.len() implies log[i] == longer[i] by {
        assert(longer.subrange(0, log.len() as int)[i] == longer[i]);
    }
    reveal_with_fuel(dial_turn, 4);
}

/// Sending a command takes ten requests at most: there is no waiting without end.
pub proof fn sending_takes_ten_requests_at_most(
    client: KiCadIpcClient,
    command: Seq<u8>,
    message_type: Seq<char>,
    log: Seq<WireReply>,
)
    requires
        log.len() >= 10,
    ensures
        send_command_turn(client, command, message_type, log) is Done,
{
    reveal_with_fuel(dial_turn, 4);
}

/// Connecting is tried three times at most, and it fails only if all three attempts have.
pub proof fn connecting_is_tried_three_times(url: Seq<char>, log: Seq<WireReply>, at: int)
    requires
        0 <= at,
    ensures
        dial_turn(url, log, at, 0) matches Err(WireTurn::Done(_)) ==> {
            &&& at + 4 < log.len()
            &&& log[at] is Failed
            &&& log[at + 2] is Failed
            &&& log[at + 4] is Failed
        },
        dial_turn(url, log, at, 0) matches Ok(n) ==> {
            &&& at < n <= at + 5
            &&& n <= log.len()
            &&& !(log[n - 1] is Failed)
        },
{
    reveal_with_fuel(dial_turn, 4);
}

/// Both directions are bounded in time before the first attempt to connect: whenever a command
/// is about to be sent, or a connection made, both bounds have been set.
pub proof fn time_is_bounded_before_connecting(
    client: KiCadIpcClient,
    command: Seq<u8>,
    message_type: Seq<char>,
    log: Seq<WireReply>,
)
    requires
        send_command_turn(client, command, message_type, log) matches WireTurn::Ask(q) && (q is Dial
            || q is Transmit || q is Receive),
    ensures
        log.len() >= 3,
        !(log[1] is Failed),
        !(log[2] is Failed),
        send_command_turn(client, command, message_type, log.take(1)) == WireTurn::Ask(
            WireQuery::SetSendTimeout { millis: 5_000 },
        ),
        send_command_turn(client, command, message_type, log.take(2)) == WireTurn::Ask(
            WireQuery::SetRecvTimeout { millis: 30_000 },
        ),
{
}

/// The address that is dialled has a scheme, and dialling it again changes nothing.
pub proof fn an_address_has_a_scheme(socket_path: Seq<char>)
    ensures
        "ipc://"@.is_prefix_of(dial_address(socket_path)) || "tcp://"@.is_prefix_of(
            dial_address(socket_path),
        ),
        dial_address(dial_address(socket_path)) == dial_address(socket_path),
{
    let local = "ipc://"@ + socket_path;
    assert(local.subrange(0, "ipc://"@.len() as int) =~= "ipc://"@);
}

/// `ping` never fails: no answer is an answer too.
pub proof fn ping_never_fails(log: Seq<Reply>, at: int)
    ensures
        ping_turn(log, at) matches Turn::Done(r, _) ==> r is Ok,
{
}

// ------------------------------------------------------------ step by step

/// The name is `konnect-` and the number of the process, in decimal digits.
pub open spec fn names_process(name: Seq<char>, process_id: nat) -> bool {
    exists|digits: Seq<char>|
        {
            &&& name == "konnect-"@ + digits
            &&& #[trigger] number(digits) == process_id
            &&& digits.len() > 0
            &&& forall|i: int| 0 <= i < digits.len() ==> '0' <= #[trigger] digits[i] <= '9'
            &&& process_id > 0 ==> digits[0] != '0'
        }
}

/// A client is named after its process.
pub proof fn a_client_is_named_after_its_process(process_id: nat)
    ensures
        names_process("konnect-"@ + decimal(process_id), process_id),
{
    a_number_is_written_in_decimal_digits(process_id);
    assert(number(decimal(process_id)) == process_id);
}

/// The socket is the given one; if none is given, the one that the environment names, even if that
/// is empty; if it names none, the default one if it exists, and else none.
pub proof fn the_given_socket_comes_first(
    given: Seq<char>,
    environment: Option<Seq<char>>,
    default_exists: bool,
)
    ensures
        given.len() > 0 ==> effective_socket(given, environment, default_exists) == given,
        given.len() == 0 ==> (environment matches Some(path) ==> effective_socket(
            given,
            environment,
            default_exists,
        ) == path),
        given.len() == 0 && environment is None && default_exists ==> effective_socket(
            given,
            environment,
            default_exists,
        ) == "ipc:///tmp/kicad/api.sock"@,
        given.len() == 0 && environment is None && !default_exists ==> effective_socket(
            given,
            environment,
            default_exists,
        ).len() == 0,
{
}

/// A path that starts with `ipc://` or `tcp://` is an address as it is; before any other path
/// `ipc://` is put.
pub proof fn a_bare_path_is_an_ipc_address(path: Seq<char>)
    ensures
        dial_address("ipc://"@ + path) == "ipc://"@ + path,
        dial_address("tcp://"@ + path) == "tcp://"@ + path,
        (path.len() < 6 || (path.take(6) != "ipc://"@ && path.take(6) != "tcp://"@))
            ==> dial_address(path) == "ipc://"@ + path,
{
    reveal_strlit("ipc://");
    reveal_strlit("tcp://");
    assert(("ipc://"@ + path).take(6) =~= "ipc://"@);
    assert(("tcp://"@ + path).take(6) =~= "tcp://"@);
}

/// Connecting dials the address. Where that fails it waits 50 milliseconds and dials again, then
/// 100 milliseconds and dials a last time, and then gives up.
pub proof fn connecting_waits_longer_each_time(url: Seq<char>, log: Seq<WireReply>, at: int)
    requires
        0 <= at <= log.len(),
    ensures
        ({
            let turn = dial_turn(url, log, at, 0);
            let dial = Err::<int, WireTurn>(WireTurn::Ask(WireQuery::Dial { url }));
            let n = log.len() - at;
            if n == 0 {
                turn == dial
            } else if !(log[at] is Failed) {
                turn == Ok::<int, WireTurn>(at + 1)
            } else if n == 1 {
                turn == Err::<int, WireTurn>(WireTurn::Ask(WireQuery::Sleep { millis: 50 }))
            } else if n == 2 {
                turn == dial
            } else if !(log[at + 2] is Failed) {
                turn == Ok::<int, WireTurn>(at + 3)
            } else if n == 3 {
                turn == Err::<int, WireTurn>(WireTurn::Ask(WireQuery::Sleep { millis: 100 }))
            } else if n == 4 {
                turn == dial
            } else if !(log[at + 4] is Failed) {
                turn == Ok::<int, WireTurn>(at + 5)
            } else {
                turn == Err::<int, WireTurn>(
                    WireTurn::Done(Err("Cannot connect to KiCAD IPC at "@ + url)),
                )
            }
        }),
{
    reveal_with_fuel(dial_turn, 3);
}

/// What an answer amounts to: its message, if the status is absent or good. Otherwise the error has
/// the message of the status, or the name of its variant if there is none, and its name in parens.
pub proof fn an_answer_is_its_message_or_its_error(response: ApiResponse)
    ensures
        (response.status matches Some(status) ==> status.code is AsOk) ==> match response.message {
            Some(any) => answer(response) matches Ok(Some(message)) && message.type_url
                == any.type_url@ && message.value == any.value@,
            None => answer(response) == Ok::<Option<AnyModel>, Seq<char>>(None),
        },
        response.status matches Some(status) ==> (status.code matches ApiStatusCode::Other {
            variant,
            name,
        } ==> answer(response) == Err::<Option<AnyModel>, Seq<char>>(
            "KiCAD IPC error: "@ + (if status.error_message@.len() > 0 {
                status.error_message@
            } else {
                variant@
            }) + " ("@ + name@ + ")"@,
        )),
{
}

/// Sending opens a socket, bounds both directions in time, dials, transmits the command in its
/// envelope and receives the answer; each step that fails says so.
#[verifier::spinoff_prover]
#[verifier::rlimit(40)]
pub proof fn a_command_is_sent_step_by_step(
    client: KiCadIpcClient,
    command: Seq<u8>,
    message_type: Seq<char>,
    log: Seq<WireReply>,
)
    requires
        client.socket_path@.len() > 0,
    ensures
        ({
            let turn = send_command_turn(client, command, message_type, log);
            let fails = |text: Seq<char>|
                turn == WireTurn::Done(Err::<Option<AnyModel>, Seq<char>>(text));
            if log.len() == 0 {
                turn == WireTurn::Ask(WireQuery::OpenSocket)
            } else if log[0] is Failed {
                fails("Failed to create NNG socket"@)
            } else if log.len() == 1 {
                turn == WireTurn::Ask(WireQuery::SetSendTimeout { millis: 5_000 })
            } else if log[1] is Failed {
                fails("Failed to set NNG send timeout"@)
            } else if log.len() == 2 {
                turn == WireTurn::Ask(WireQuery::SetRecvTimeout { millis: 30_000 })
            } else if log[2] is Failed {
                fails("Failed to set NNG receive timeout"@)
            } else {
                match dial_turn(dial_address(client.socket_path@), log, 3, 0) {
                    Err(dialling) => turn == dialling,
                    Ok(n) => if log.len() <= n {
                        &&& turn is Ask
                        &&& turn->Ask_0 matches WireQuery::Transmit(request)
                        &&& request.kicad_token.len() == 0
                        &&& request.client_name == client.client_name@
                        &&& request.message.type_url == "type.googleapis.com/"@ + message_type
                        &&& request.message.value == command
                    } else {
                        match log[n] {
                            WireReply::Failed(reason) => fails("NNG send failed: "@ + reason@),
                            _ => if log.len() == n + 1 {
                                turn == WireTurn::Ask(WireQuery::Receive)
                            } else {
                                match log[n + 1] {
                                    WireReply::Failed(reason) => fails(
                                        "NNG recv failed: "@ + reason@,
                                    ),
                                    WireReply::Response(response) => turn == WireTurn::Done(
                                        answer(response),
                                    ),
                                    _ => fails("Failed to decode ApiResponse"@),
                                }
                            },
                        }
                    },
                }
            }
        }),
{
    if log.len() > 2 {
        connecting_is_tried_three_times(dial_address(client.socket_path@), log, 3);
    }
}

/// A client without a socket path says what to do about it.
pub proof fn an_unconfigured_client_says_what_to_do(
    client: KiCadIpcClient,
    command: Seq<u8>,
    message_type: Seq<char>,
    log: Seq<WireReply>,
)
    requires
        client.socket_path@.len() == 0,
    ensures
        send_command_turn(client, command, message_type, log) == WireTurn::Done(
            Err::<Option<AnyModel>, Seq<char>>(
                "KiCAD IPC socket path not configured. To fix: (1) in KiCAD, enable Edit > Preferences > Plugins > 'Enable KiCad API' and copy the listed ipc:// address; (2) paste it into the 'IPC Socket' field of the Konnect settings dialog (Tools > External Plugins > Konnect) and save; (3) restart the AI client so the server rereads settings. Alternatively set ipc_socket_path in konnect-settings.json or launch via KiCAD (which sets KICAD_API_SOCKET). Full guide: https://github.com/mixelpixx/Konnect/blob/main/docs/TROUBLESHOOTING.md"@,
            ),
        ),
{
}

/// Each command goes under the name of its own message type.
pub proof fn a_command_goes_under_its_own_name(command: CommandModel)
    ensures
        command.message_type() == match command {
            CommandModel::GetNets { .. } => "kiapi.board.commands.GetNets"@,
            CommandModel::RefillZones { .. } => "kiapi.board.commands.RefillZones"@,
            CommandModel::GetBoardEnabledLayers { .. } =>
                "kiapi.board.commands.GetBoardEnabledLayers"@,
            CommandModel::Ping => "kiapi.common.commands.Ping"@,
            CommandModel::GetOpenDocuments { .. } => "kiapi.common.commands.GetOpenDocuments"@,
            CommandModel::GetItems { .. } => "kiapi.common.commands.GetItems"@,
            CommandModel::GetItemsById { .. } => "kiapi.common.commands.GetItemsById"@,
            CommandModel::CreateItems { .. } => "kiapi.common.commands.CreateItems"@,
            CommandModel::UpdateItems { .. } => "kiapi.common.commands.UpdateItems"@,
            CommandModel::DeleteItems { .. } => "kiapi.common.commands.DeleteItems"@,
            CommandModel::SaveDocument { .. } => "kiapi.common.commands.SaveDocument"@,
            CommandModel::SaveDocumentToString { .. } =>
                "kiapi.common.commands.SaveDocumentToString"@,
            CommandModel::RevertDocument { .. } => "kiapi.common.commands.RevertDocument"@,
            CommandModel::BeginCommit => "kiapi.common.commands.BeginCommit"@,
            CommandModel::EndCommit { .. } => "kiapi.common.commands.EndCommit"@,
            CommandModel::GetBoundingBox { .. } => "kiapi.common.commands.GetBoundingBox"@,
            CommandModel::RunAction { .. } => "kiapi.common.commands.RunAction"@,
        },
{
}

} // verus!
