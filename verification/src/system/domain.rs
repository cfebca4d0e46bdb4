//! Identity of the edge device and the configuration records of its broker.

use vstd::prelude::*;
use crate::message::upload::{copy_to_edge, ToEdgeMsg};
use crate::mqtt::domain::PayloadTopic;

verus! {

/// Identity and base configuration of the edge device.
#[derive(Debug)]
pub struct System {
    pub id_edge: String,
    pub host_server: String,
    pub host_port: String,
    pub host_local: String,
    pub cn: String,
    pub db_path: String,
    pub buffer_size: usize,
}

/// Which part of the broker set-up needs to be (re)configured.
#[derive(Debug, Clone, Copy, PartialEq, Eq, Structural)]
pub enum Flag {
    MosquittoConf,
    MtlsConf,
    MosquittoServiceInactive,
    Null,
}

/// Connectivity events of the local broker and the server, and publications
/// received from the broker.
#[derive(Debug, Clone, PartialEq, Eq)]
pub enum InternalEvent {
    ServerConnected,
    ServerDisconnected,
    LocalConnected,
    LocalDisconnected,
    IncomingMessage(PayloadTopic),
    /// A record received from the server.
    IncomingGrpc(ToEdgeMsg),
}

/// What an event carries: its kind and, for a publication, its payload and
/// topic; for a record of the server, the record.
pub enum InternalEventView {
    ServerConnected,
    ServerDisconnected,
    LocalConnected,
    LocalDisconnected,
    IncomingMessage(Seq<u8>, Seq<char>),
    IncomingGrpc(ToEdgeMsg),
}

impl View for InternalEvent {
    type V = InternalEventView;

    open spec fn view(&self) -> InternalEventView {
        match self {
            InternalEvent::ServerConnected => InternalEventView::ServerConnected,
            InternalEvent::ServerDisconnected => InternalEventView::ServerDisconnected,
            InternalEvent::LocalConnected => InternalEventView::LocalConnected,
            InternalEvent::LocalDisconnected => InternalEventView::LocalDisconnected,
            InternalEvent::IncomingMessage(p) => InternalEventView::IncomingMessage(p.payload@, p.topic@),
            InternalEvent::IncomingGrpc(m) => InternalEventView::IncomingGrpc(*m),
        }
    }
}

impl InternalEvent {
    /// A copy of the event, carrying the same payload and topic.
    pub fn duplicate(&self) -> (c: Self)
        ensures
            c@ == self@,
    {
        match self {
            InternalEvent::ServerConnected => InternalEvent::ServerConnected,
            InternalEvent::ServerDisconnected => InternalEvent::ServerDisconnected,
            InternalEvent::LocalConnected => InternalEvent::LocalConnected,
            InternalEvent::LocalDisconnected => InternalEvent::LocalDisconnected,
            InternalEvent::IncomingMessage(p) => {
                let payload = p.payload.clone();
                proof {
                    assert(payload@ =~= p.payload@);
                }
                InternalEvent::IncomingMessage(PayloadTopic { payload, topic: p.topic.clone() })
            },
            InternalEvent::IncomingGrpc(m) => InternalEvent::IncomingGrpc(copy_to_edge(m)),
        }
    }
}

/// Errors of the start-up checks and configuration.
#[derive(Debug, PartialEq, Eq)]
pub enum ErrorType {
    MosquittoNotInstalled,
    MosquittoServiceInactive,
    Generic,
    MosquittoConf(String),
    MtlsConfig(String),
    SystemFile(String),
    ProtocolFile(String),
    /// A file could not be read; the text is the system's message.
    Io(String),
    Endpoint,
}

/// Paths of the X.509 files of one party.
#[derive(Debug, Default)]
pub struct Certs {
    pub cafile: String,
    pub certfile: String,
    pub keyfile: String,
}

impl View for Certs {
    type V = (Seq<char>, Seq<char>, Seq<char>);

    open spec fn view(&self) -> (Seq<char>, Seq<char>, Seq<char>) {
        (self.cafile@, self.certfile@, self.keyfile@)
    }
}

/// The mTLS settings of the broker, as read from its configuration file: the
/// listener, the TLS version, the files of the broker and of the local and
/// remote edge, and the security flags.
#[derive(Debug)]
pub struct MtlsConfig {
    pub listener: Option<u16>,
    pub tls_version: Option<String>,
    pub broker: Certs,
    pub edge_local: Certs,
    pub edge_remote: Certs,
    pub require_certificate: bool,
    pub use_identity_as_username: bool,
    pub allow_anonymous: bool,
    pub connection_messages: bool,
}

/// The value of an `MtlsConfig`.
pub struct MtlsConfigView {
    pub listener: Option<u16>,
    pub tls_version: Option<Seq<char>>,
    pub broker: (Seq<char>, Seq<char>, Seq<char>),
    pub edge_local: (Seq<char>, Seq<char>, Seq<char>),
    pub edge_remote: (Seq<char>, Seq<char>, Seq<char>),
    pub require_certificate: bool,
    pub use_identity_as_username: bool,
    pub allow_anonymous: bool,
    pub connection_messages: bool,
}

impl View for MtlsConfig {
    type V = MtlsConfigView;

    open spec fn view(&self) -> MtlsConfigView {
        MtlsConfigView {
            listener: self.listener,
            tls_version: match self.tls_version {
                Some(t) => Some(t@),
                None => None,
            },
            broker: self.broker@,
            edge_local: self.edge_local@,
            edge_remote: self.edge_remote@,
            require_certificate: self.require_certificate,
            use_identity_as_username: self.use_identity_as_username,
            allow_anonymous: self.allow_anonymous,
            connection_messages: self.connection_messages,
        }
    }
}

/// What the file system tells about a certificate or key file.
#[derive(Debug, Clone, Copy)]
pub struct FileInfo {
    pub is_file: bool,
    pub len: u64,
    pub mode: u32,
}

/// The three files of one party: metadata, or the message of the failed lookup.
pub struct CertFiles {
    pub cafile: Result<FileInfo, String>,
    pub certfile: Result<FileInfo, String>,
    pub keyfile: Result<FileInfo, String>,
}

/// Stages of the start-up sequence.
#[derive(Debug, Clone, Copy, PartialEq, Eq, Structural)]
pub enum StateInit {
    CheckSystem,
    ConfigSystem,
    InitSystem,
}

} // verus!
