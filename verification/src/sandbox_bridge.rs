//! The channel between the discovery service and an isolated worker: three
//! artifacts, each of which holds one text or is absent.

use vstd::prelude::*;

verus! {

/// The artifacts of one session, as they stand.
#[derive(Debug)]
pub struct SandboxBridge {
    /// The discovery details, as JSON, written by the service.
    pub input: Option<String>,
    /// The devices found, as JSON, written by the worker. That it is there
    /// tells the service that a result is ready.
    pub output: Option<String>,
    /// `ONLINE` or `OFFLINE`, read by the worker.
    pub availability: Option<String>,
}

/// The text that an artifact holds, if it is there.
pub open spec fn artifact_view(artifact: Option<String>) -> Option<Seq<char>> {
    match artifact {
        Some(text) => Some(text@),
        None => None,
    }
}

/// What the artifacts of a session hold.
pub struct SandboxBridgeView {
    pub input: Option<Seq<char>>,
    pub output: Option<Seq<char>>,
    pub availability: Option<Seq<char>>,
}

impl View for SandboxBridge {
    type V = SandboxBridgeView;

    open spec fn view(&self) -> SandboxBridgeView {
        SandboxBridgeView {
            input: artifact_view(self.input),
            output: artifact_view(self.output),
            availability: artifact_view(self.availability),
        }
    }
}

/// The session after the worker wrote `text` as its output, in place of
/// any earlier output.
pub open spec fn with_output(bridge: SandboxBridgeView, text: Seq<char>) -> SandboxBridgeView {
    SandboxBridgeView { output: Some(text), ..bridge }
}

impl SandboxBridge {
    /// A session in which nothing has been written yet.
    pub fn new() -> (bridge: SandboxBridge)
        ensures
            bridge@ == (SandboxBridgeView { input: None, output: None, availability: None }),
    {
        SandboxBridge { input: None, output: None, availability: None }
    }
}

} // verus!
