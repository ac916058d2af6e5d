//! The client, and sending one command.
use konnect_ipc::client::KiCadIpcClient;
use konnect_ipc::transport::{
    dial_url, read_answer, ApiResponse, ApiStatus, ApiStatusCode, WireReply, WireRequest, WireStep,
};
use konnect_ipc::wire::Any;

fn client(path: &str) -> KiCadIpcClient {
    KiCadIpcClient::new(path.to_string(), None, false, 12)
}

/// Sends a command with the given replies; gives the requests and the result, if it came.
fn send(
    client: &KiCadIpcClient,
    replies: Vec<WireReply>,
) -> (Vec<String>, Option<Result<Option<Any>, String>>) {
    let mut asked = vec![];
    let mut log: Vec<WireReply> = vec![];
    let mut replies = replies.into_iter();
    loop {
        match client.send_command(&vec![1, 2, 3], "kiapi.common.commands.Ping", &log) {
            WireStep::Done(result) => {
                assert!(replies.next().is_none(), "a reply was left over");
                return (asked, Some(result.map_err(|e| e.text)));
            }
            WireStep::Ask(request) => {
                asked.push(format!("{request:?}"));
                match replies.next() {
                    Some(reply) => log.push(reply),
                    None => return (asked, None),
                }
            }
        }
    }
}

fn failed(reason: &str) -> WireReply {
    WireReply::Failed(reason.to_string())
}

fn bad_request(message: &str) -> Option<ApiStatus> {
    let code = ApiStatusCode::Other {
        variant: "AsBadRequest".to_string(),
        name: "AS_BAD_REQUEST".to_string(),
    };
    Some(ApiStatus { code, error_message: message.to_string() })
}

#[test]
fn a_given_socket_is_used() {
    let c = KiCadIpcClient::new("ipc:///x".to_string(), Some("ipc:///y".to_string()), true, 1);
    assert_eq!(c.socket_path, "ipc:///x");
}

#[test]
fn the_environment_comes_next() {
    let c = KiCadIpcClient::new(String::new(), Some("ipc:///y".to_string()), true, 1);
    assert_eq!(c.socket_path, "ipc:///y");
    let c = KiCadIpcClient::new(String::new(), Some(String::new()), true, 1);
    assert_eq!(c.socket_path, "");
}

#[test]
fn the_default_socket_comes_last_and_only_if_it_exists() {
    let c = KiCadIpcClient::new(String::new(), None, true, 1);
    assert_eq!(c.socket_path, "ipc:///tmp/kicad/api.sock");
    let c = KiCadIpcClient::new(String::new(), None, false, 1);
    assert_eq!(c.socket_path, "");
    assert_eq!(KiCadIpcClient::default_unix_socket(false), "");
}

#[test]
fn clients_are_named_by_their_process() {
    assert_eq!(client("x").client_name, "konnect-12");
    let c = KiCadIpcClient::new(String::new(), None, false, 4_000_000_000);
    assert_eq!(c.client_name, "konnect-4000000000");
    let c = KiCadIpcClient::new(String::new(), None, false, 0);
    assert_eq!(c.client_name, "konnect-0");
}

#[test]
fn paths_without_scheme_are_local_sockets() {
    assert_eq!(dial_url("ipc:///a"), "ipc:///a");
    assert_eq!(dial_url("tcp://h:1"), "tcp://h:1");
    assert_eq!(dial_url("/a"), "ipc:///a");
    assert_eq!(dial_url("ipc:/"), "ipc://ipc:/");
    assert_eq!(dial_url("http://a"), "ipc://http://a");
    let once = dial_url("a");
    assert_eq!(dial_url(&once), once);
}

#[test]
fn an_unconfigured_client_says_how_to_configure_it() {
    let (asked, result) = send(&client(""), vec![]);
    assert!(asked.is_empty());
    let text = result.unwrap().unwrap_err();
    assert!(text.starts_with("KiCAD IPC socket path not configured. To fix: (1) in KiCAD, "));
    assert!(text.ends_with("docs/TROUBLESHOOTING.md"));
}

#[test]
fn a_command_is_sent_and_answered() {
    let answer = Any { type_url: "t".to_string(), value: vec![9] };
    let (asked, result) = send(
        &client("/s"),
        vec![
            WireReply::Done,
            WireReply::Done,
            WireReply::Done,
            WireReply::Done,
            WireReply::Done,
            WireReply::Response(ApiResponse {
                status: Some(ApiStatus { code: ApiStatusCode::AsOk, error_message: String::new() }),
                message: Some(answer),
            }),
        ],
    );
    assert_eq!(asked[0], "OpenSocket");
    assert_eq!(asked[1], "SetSendTimeout { millis: 5000 }");
    assert_eq!(asked[2], "SetRecvTimeout { millis: 30000 }");
    assert_eq!(asked[3], "Dial { url: \"ipc:///s\" }");
    assert_eq!(
        asked[4],
        "Transmit(ApiRequest { kicad_token: \"\", client_name: \"konnect-12\", message: Any { \
         type_url: \"type.googleapis.com/kiapi.common.commands.Ping\", value: [1, 2, 3] } })"
    );
    assert_eq!(asked[5], "Receive");
    assert_eq!(asked.len(), 6);
    let message = result.unwrap().unwrap().unwrap();
    assert_eq!(message.type_url, "t");
    assert_eq!(message.value, vec![9]);
}

#[test]
fn an_answer_without_status_or_message_is_good() {
    let good = ApiResponse { status: None, message: None };
    assert!(read_answer(&good).unwrap().is_none());
}

#[test]
fn a_bad_status_is_an_error() {
    let bad = |message: &str| ApiResponse {
        status: bad_request(message),
        message: Some(Any { type_url: String::new(), value: vec![] }),
    };
    assert_eq!(
        read_answer(&bad("no such item")).unwrap_err().text,
        "KiCAD IPC error: no such item (AS_BAD_REQUEST)"
    );
    assert_eq!(
        read_answer(&bad("")).unwrap_err().text,
        "KiCAD IPC error: AsBadRequest (AS_BAD_REQUEST)"
    );
}

#[test]
fn connecting_is_tried_again_twice() {
    let (asked, result) = send(
        &client("/s"),
        vec![
            WireReply::Done,
            WireReply::Done,
            WireReply::Done,
            failed("busy"),
            WireReply::Done,
            failed("busy"),
            WireReply::Done,
            failed("busy"),
        ],
    );
    assert_eq!(asked[3], "Dial { url: \"ipc:///s\" }");
    assert_eq!(asked[4], "Sleep { millis: 50 }");
    assert_eq!(asked[5], "Dial { url: \"ipc:///s\" }");
    assert_eq!(asked[6], "Sleep { millis: 100 }");
    assert_eq!(asked[7], "Dial { url: \"ipc:///s\" }");
    assert_eq!(
        result.unwrap().unwrap_err(),
        "Cannot connect to KiCAD IPC at ipc:///s"
    );
}

#[test]
fn the_longest_way_to_an_answer_takes_ten_requests() {
    let (asked, result) = send(
        &client("/s"),
        vec![
            WireReply::Done,
            WireReply::Done,
            WireReply::Done,
            failed("busy"),
            WireReply::Done,
            failed("busy"),
            WireReply::Done,
            WireReply::Done,
            WireReply::Done,
            WireReply::Response(ApiResponse { status: None, message: None }),
        ],
    );
    assert_eq!(asked.len(), 10);
    assert!(result.unwrap().unwrap().is_none());
}

#[test]
fn every_step_can_fail() {
    let done = || WireReply::Done;
    let text = |replies| send(&client("/s"), replies).1.unwrap().unwrap_err();
    assert_eq!(text(vec![failed("x")]), "Failed to create NNG socket");
    assert_eq!(text(vec![done(), failed("x")]), "Failed to set NNG send timeout");
    assert_eq!(text(vec![done(), done(), failed("x")]), "Failed to set NNG receive timeout");
    assert_eq!(
        text(vec![done(), done(), done(), done(), failed("timed out")]),
        "NNG send failed: timed out"
    );
    assert_eq!(
        text(vec![done(), done(), done(), done(), done(), failed("timed out")]),
        "NNG recv failed: timed out"
    );
    assert_eq!(
        text(vec![done(), done(), done(), done(), done(), WireReply::Unreadable]),
        "Failed to decode ApiResponse"
    );
}

#[test]
fn the_first_request_is_for_a_socket() {
    assert!(matches!(
        client("/s").send_command(&vec![], "x", &vec![]),
        WireStep::Ask(WireRequest::OpenSocket)
    ));
}
