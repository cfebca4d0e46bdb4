//! The link to the server: a bidirectional stream that is opened, used until
//! it fails, and reopened after a pause.

use vstd::prelude::*;

verus! {

/// Stages of the link: connecting, streaming, failed.
#[derive(Debug, Clone, Copy, PartialEq, Eq, Structural)]
pub enum LinkState {
    Init,
    Work,
    Error,
    Stopped,
}

/// What the link's loop observes.
#[derive(Debug, Clone, Copy, PartialEq, Eq, Structural)]
pub enum LinkInput {
    /// The channel and the stream were opened.
    Connected,
    /// Opening the channel or the stream failed.
    ConnectFailed,
    /// A message to the server could not be handed to the stream.
    SendFailed,
    /// No more messages to the server will come.
    OutboundClosed,
    /// A message from the server arrived.
    Received,
    /// The stream from the server failed or was closed by the server.
    StreamEnded,
    /// The pause after a failure is over.
    Retry,
    /// The process shuts down.
    Shutdown,
}

/// What the link reports to the core.
#[derive(Debug, Clone, Copy, PartialEq, Eq, Structural)]
pub enum LinkOutput {
    ServerConnected,
    ServerDisconnected,
    /// Pass the received message on.
    Forward,
    Nothing,
}

/// The link's rule: a successful connection is reported and starts the
/// stream; every failure leads to the failed stage, which reports the
/// disconnection on entry and reconnects after its pause; received messages
/// are passed on; the link ends on shutdown, or when no more messages to the
/// server will come.
pub open spec fn link_rule(s: LinkState, i: LinkInput) -> (LinkState, LinkOutput) {
    if s == LinkState::Stopped {
        (s, LinkOutput::Nothing)
    } else if i == LinkInput::Shutdown {
        (LinkState::Stopped, LinkOutput::Nothing)
    } else {
        match (s, i) {
            (LinkState::Init, LinkInput::Connected) => (LinkState::Work, LinkOutput::ServerConnected),
            (LinkState::Init, LinkInput::ConnectFailed) => (LinkState::Error, LinkOutput::ServerDisconnected),
            (LinkState::Work, LinkInput::SendFailed) => (LinkState::Error, LinkOutput::ServerDisconnected),
            (LinkState::Work, LinkInput::StreamEnded) => (LinkState::Error, LinkOutput::ServerDisconnected),
            (LinkState::Work, LinkInput::OutboundClosed) => (LinkState::Stopped, LinkOutput::Nothing),
            (LinkState::Work, LinkInput::Received) => (LinkState::Work, LinkOutput::Forward),
            (LinkState::Error, LinkInput::Retry) => (LinkState::Init, LinkOutput::Nothing),
            _ => (s, LinkOutput::Nothing),
        }
    }
}

/// One step of the link to the server.
pub fn link_step(s: LinkState, i: LinkInput) -> (r: (LinkState, LinkOutput))
    ensures
        r == link_rule(s, i),
{
    if s == LinkState::Stopped {
        return (s, LinkOutput::Nothing);
    }
    if i == LinkInput::Shutdown {
        return (LinkState::Stopped, LinkOutput::Nothing);
    }
    match (s, i) {
        (LinkState::Init, LinkInput::Connected) => (LinkState::Work, LinkOutput::ServerConnected),
        (LinkState::Init, LinkInput::ConnectFailed) => (LinkState::Error, LinkOutput::ServerDisconnected),
        (LinkState::Work, LinkInput::SendFailed) => (LinkState::Error, LinkOutput::ServerDisconnected),
        (LinkState::Work, LinkInput::StreamEnded) => (LinkState::Error, LinkOutput::ServerDisconnected),
        (LinkState::Work, LinkInput::OutboundClosed) => (LinkState::Stopped, LinkOutput::Nothing),
        (LinkState::Work, LinkInput::Received) => (LinkState::Work, LinkOutput::Forward),
        (LinkState::Error, LinkInput::Retry) => (LinkState::Init, LinkOutput::Nothing),
        _ => (s, LinkOutput::Nothing),
    }
}

/// The link reports a connection only when it starts streaming, and a
/// disconnection exactly when it enters the failed stage; it streams only
/// after reporting the connection.
pub proof fn law_link_reports_changes(s: LinkState, i: LinkInput)
    ensures
        link_rule(s, i).1 == LinkOutput::ServerConnected <==> (s != LinkState::Work && link_rule(s, i).0
            == LinkState::Work),
        link_rule(s, i).1 == LinkOutput::ServerDisconnected <==> (s != LinkState::Error && link_rule(s, i).0
            == LinkState::Error),
        link_rule(s, i).1 == LinkOutput::Forward ==> s == LinkState::Work,
{
}

} // verus!
