//! The entry points that the Dart side calls, and how the bridge runtime is
//! told to run each of them.

use vstd::prelude::*;

verus! {

/// How the runtime runs a call and answers it.
#[derive(Clone, Copy, Debug, PartialEq, Eq, Structural)]
pub enum CallMode {
    /// Run on a worker; the answer goes to the caller's port as a future.
    Normal,
    /// Run at once on the calling thread; the answer is returned directly.
    Sync,
    /// Run on a worker; values go to the caller's port as a stream.
    Stream,
}

/// The entry points of the bridge.
#[derive(Clone, Copy, Debug, PartialEq, Eq, Structural)]
pub enum BridgeCall {
    PrepareRustSignalStream,
    PrepareRustResponseStream,
    PrepareChannels,
    StartRustLogic,
    RequestToRust,
}

/// What the runtime is told about one call.
#[derive(Clone, Copy, Debug)]
pub struct CallInfo {
    pub debug_name: &'static str,
    pub port: Option<i64>,
    pub mode: CallMode,
}

/// The streams are set up as streams, the channels and each request are
/// handled synchronously, and starting the Rust logic is an ordinary call.
pub open spec fn call_mode(c: BridgeCall) -> CallMode {
    match c {
        BridgeCall::PrepareRustSignalStream => CallMode::Stream,
        BridgeCall::PrepareRustResponseStream => CallMode::Stream,
        BridgeCall::PrepareChannels => CallMode::Sync,
        BridgeCall::StartRustLogic => CallMode::Normal,
        BridgeCall::RequestToRust => CallMode::Sync,
    }
}

/// Each call is known to the runtime by the name of the function it runs.
pub open spec fn call_name(c: BridgeCall) -> Seq<char> {
    match c {
        BridgeCall::PrepareRustSignalStream => "prepare_rust_signal_stream"@,
        BridgeCall::PrepareRustResponseStream => "prepare_rust_response_stream"@,
        BridgeCall::PrepareChannels => "prepare_channels"@,
        BridgeCall::StartRustLogic => "start_rust_logic"@,
        BridgeCall::RequestToRust => "request_to_rust"@,
    }
}

/// A call answers through a Dart port exactly when it is not synchronous.
pub open spec fn uses_port(c: BridgeCall) -> bool {
    call_mode(c) != CallMode::Sync
}

impl BridgeCall {
    pub fn mode(self) -> (r: CallMode)
        ensures
            r == call_mode(self),
    {
        match self {
            BridgeCall::PrepareRustSignalStream => CallMode::Stream,
            BridgeCall::PrepareRustResponseStream => CallMode::Stream,
            BridgeCall::PrepareChannels => CallMode::Sync,
            BridgeCall::StartRustLogic => CallMode::Normal,
            BridgeCall::RequestToRust => CallMode::Sync,
        }
    }

    pub fn debug_name(self) -> (r: &'static str)
        ensures
            r@ == call_name(self),
    {
        proof {
            reveal_strlit("prepare_rust_signal_stream");
            reveal_strlit("prepare_rust_response_stream");
            reveal_strlit("prepare_channels");
            reveal_strlit("start_rust_logic");
            reveal_strlit("request_to_rust");
        }
        match self {
            BridgeCall::PrepareRustSignalStream => "prepare_rust_signal_stream",
            BridgeCall::PrepareRustResponseStream => "prepare_rust_response_stream",
            BridgeCall::PrepareChannels => "prepare_channels",
            BridgeCall::StartRustLogic => "start_rust_logic",
            BridgeCall::RequestToRust => "request_to_rust",
        }
    }

    /// What the runtime is told about this call; `port` is the Dart port the
    /// call came with, which a synchronous call does not have.
    pub fn call_info(self, port: Option<i64>) -> (r: CallInfo)
        requires
            port is Some <==> uses_port(self),
        ensures
            r.debug_name@ == call_name(self),
            r.mode == call_mode(self),
            r.port == port,
    {
        CallInfo { debug_name: self.debug_name(), port, mode: self.mode() }
    }
}

} // verus!
