//! The client, and where it finds KiCAD.
use vstd::prelude::*;
use vstd::string::*;

use crate::laws::sending::{a_client_is_named_after_its_process, names_process};
use crate::text::{decimal, decimal_text};

verus! {

/// A client of the KiCAD IPC API.
#[derive(Debug)]
pub struct KiCadIpcClient {
    /// Where KiCAD listens. Empty if that is not known.
    pub socket_path: String,
    /// The name under which commits are opened.
    pub client_name: String,
}

/// The socket that KiCAD listens on by default, if there is one.
pub open spec fn default_socket(exists: bool) -> Seq<char> {
    if exists {
        "ipc:///tmp/kicad/api.sock"@
    } else {
        seq![]
    }
}

/// The socket to use: the given one; if that is empty, the one that the environment names; if
/// it names none, the default one.
pub open spec fn effective_socket(
    given: Seq<char>,
    environment: Option<Seq<char>>,
    default_exists: bool,
) -> Seq<char> {
    if given.len() > 0 {
        given
    } else {
        match environment {
            Some(path) => path,
            None => default_socket(default_exists),
        }
    }
}

impl KiCadIpcClient {
    /// A client for the given socket.
    ///
    /// `environment` is the value of `KICAD_API_SOCKET`, if it is set. `default_exists` says
    /// whether `/tmp/kicad/api.sock` exists, on a system where that is the default socket.
    /// `process_id` makes the name of the client.
    pub fn new(
        socket_path: String,
        environment: Option<String>,
        default_exists: bool,
        process_id: u32,
    ) -> (client: Self)
        ensures
            client.socket_path@ == effective_socket(
                socket_path@,
                environment.deep_view(),
                default_exists,
            ),
            client.client_name@ == "konnect-"@ + decimal(process_id as nat),
            names_process(client.client_name@, process_id as nat),
    {
        proof {
            a_client_is_named_after_its_process(process_id as nat);
        }
        let effective = if socket_path.as_str().is_empty() {
            match environment {
                Some(path) => path,
                None => Self::default_unix_socket(default_exists),
            }
        } else {
            socket_path
        };
        let mut client_name = "konnect-".to_string();
        client_name.append(decimal_text(process_id as u64).as_str());
        KiCadIpcClient { socket_path: effective, client_name }
    }

    /// The socket that KiCAD listens on by default, if it exists, and else nothing.
    pub fn default_unix_socket(exists: bool) -> (path: String)
        ensures
            path@ == default_socket(exists),
    {
        if exists {
            "ipc:///tmp/kicad/api.sock".to_string()
        } else {
            String::new()
        }
    }
}

} // verus!
