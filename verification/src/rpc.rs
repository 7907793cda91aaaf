use vstd::prelude::*;
use vstd::string::StringExecFns;

verus! {

/// A window of a running program, as the rich presence server describes it.
pub struct Window {
    title: String,
    process_name: String,
    pid: u32,
}

/// Which parts of the rich presence server run.
#[derive(Debug, Clone, Copy, PartialEq, Eq, Structural)]
pub struct RpcSettings {
    pub enable_process_scanner: bool,
    pub enable_ipc_connector: bool,
    pub enable_websocket_connector: bool,
    pub enable_secondary_events: bool,
}

/// The server runs every part: the process scanner, both connectors and the secondary
/// events.
pub fn rpc_settings() -> (settings: RpcSettings)
    ensures
        settings.enable_process_scanner,
        settings.enable_ipc_connector,
        settings.enable_websocket_connector,
        settings.enable_secondary_events,
{
    RpcSettings {
        enable_process_scanner: true,
        enable_ipc_connector: true,
        enable_websocket_connector: true,
        enable_secondary_events: true,
    }
}

/// The step at which starting the rich presence server failed.
#[derive(Debug, Clone, Copy, PartialEq, Eq, Structural)]
pub enum RpcStartFailure {
    /// The list of detectable applications could not be requested.
    FetchDetectables,
    /// The answer with the list could not be read.
    ReadDetectables,
    /// The server refused the list.
    StartServer,
}

/// The error that starting the server reports: fixed for the two steps that fetch the
/// list; for the server itself, the reason it gave (`detail`) after a fixed opening.
pub open spec fn rpc_start_error_text(failure: RpcStartFailure, detail: Seq<char>) -> Seq<char> {
    match failure {
        RpcStartFailure::FetchDetectables => "Failed to fetch detectables"@,
        RpcStartFailure::ReadDetectables => "Failed to read detectables"@,
        RpcStartFailure::StartServer => "Failed to start RPC server: "@ + detail,
    }
}

/// Only a refusal by the server carries the reason it gave, at the end of the message;
/// the two failures to get the list report fixed messages whatever went wrong.
pub proof fn lemma_rpc_error_detail_only_from_server(failure: RpcStartFailure, detail: Seq<char>)
    ensures
        failure == RpcStartFailure::StartServer ==> ({
            let message = rpc_start_error_text(failure, detail);
            let opening = "Failed to start RPC server: "@;
            &&& message.len() == opening.len() + detail.len()
            &&& message.subrange(0, opening.len() as int) == opening
            &&& message.subrange(opening.len() as int, message.len() as int) == detail
        }),
        failure != RpcStartFailure::StartServer ==> forall|other: Seq<char>|
            rpc_start_error_text(failure, detail) == #[trigger] rpc_start_error_text(failure, other),
        failure == RpcStartFailure::FetchDetectables ==> rpc_start_error_text(failure, detail)
            == "Failed to fetch detectables"@,
        failure == RpcStartFailure::ReadDetectables ==> rpc_start_error_text(failure, detail)
            == "Failed to read detectables"@,
{
    let message = rpc_start_error_text(failure, detail);
    let opening = "Failed to start RPC server: "@;
    if failure == RpcStartFailure::StartServer {
        assert(message.subrange(0, opening.len() as int) =~= opening);
        assert(message.subrange(opening.len() as int, message.len() as int) =~= detail);
    }
}

/// The error that starting the rich presence server reports for a failed step.
pub fn rpc_start_error(failure: RpcStartFailure, detail: &str) -> (message: String)
    ensures
        message@ == rpc_start_error_text(failure, detail@),
        failure == RpcStartFailure::FetchDetectables ==> message@ == "Failed to fetch detectables"@,
        failure == RpcStartFailure::ReadDetectables ==> message@ == "Failed to read detectables"@,
        failure == RpcStartFailure::StartServer ==> message@ == "Failed to start RPC server: "@
            + detail@,
{
    proof {
        lemma_rpc_error_detail_only_from_server(failure, detail@);
    }
    match failure {
        RpcStartFailure::FetchDetectables => String::from_str("Failed to fetch detectables"),
        RpcStartFailure::ReadDetectables => String::from_str("Failed to read detectables"),
        RpcStartFailure::StartServer => {
            let mut message = String::from_str("Failed to start RPC server: ");
            message.append(detail);
            message
        },
    }
}

} // verus!
