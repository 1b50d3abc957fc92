//! The externally visible connection status and the facts attached to it.

use crate::text::opt_text;
use vstd::prelude::*;
use vstd::string::StringExecFns;

verus! {

/// The addresses of the virtual interface, as the edge process announced them.
#[derive(Debug, Clone, PartialEq, Eq)]
pub struct NetworkInfo {
    pub ip: String,
    pub mask: String,
    pub mac: String,
}

/// What a `NetworkInfo` holds, as plain text.
pub struct NetworkInfoView {
    pub ip: Seq<char>,
    pub mask: Seq<char>,
    pub mac: Seq<char>,
}

impl View for NetworkInfo {
    type V = NetworkInfoView;

    open spec fn view(&self) -> NetworkInfoView {
        NetworkInfoView { ip: self.ip@, mask: self.mask@, mac: self.mac@ }
    }
}

/// The view of an optional `NetworkInfo`.
pub open spec fn opt_info(o: Option<NetworkInfo>) -> Option<NetworkInfoView> {
    match o {
        Some(i) => Some(i@),
        None => None,
    }
}

impl NetworkInfo {
    /// A copy with the same three texts.
    pub fn duplicate(&self) -> (r: NetworkInfo)
        ensures
            r@ == self@,
    {
        NetworkInfo { ip: self.ip.clone(), mask: self.mask.clone(), mac: self.mac.clone() }
    }
}

/// A copy of an optional `NetworkInfo`.
pub fn clone_opt_info(o: &Option<NetworkInfo>) -> (r: Option<NetworkInfo>)
    ensures
        opt_info(r) == opt_info(*o),
{
    match o {
        Some(i) => Some(i.duplicate()),
        None => None,
    }
}

/// The state of the connection as callers see it. Exactly one value is
/// current at any time.
#[derive(Debug, Clone, PartialEq, Eq)]
pub enum ConnectionStatus {
    /// No edge process is at work.
    Disconnected,
    /// The edge process was started and has not yet reached the supernode.
    Connecting,
    /// A stop was requested and the edge process has not yet exited.
    Disconnecting,
    /// The tunnel is up; the interface facts are attached once known.
    Connected(Option<NetworkInfo>),
    /// The edge process failed; the message is a notice code or a raw line.
    Error(String),
}

/// What a `ConnectionStatus` holds, as plain values.
pub enum StatusView {
    Disconnected,
    Connecting,
    Disconnecting,
    Connected(Option<NetworkInfoView>),
    Error(Seq<char>),
}

impl View for ConnectionStatus {
    type V = StatusView;

    open spec fn view(&self) -> StatusView {
        match self {
            ConnectionStatus::Disconnected => StatusView::Disconnected,
            ConnectionStatus::Connecting => StatusView::Connecting,
            ConnectionStatus::Disconnecting => StatusView::Disconnecting,
            ConnectionStatus::Connected(info) => StatusView::Connected(opt_info(*info)),
            ConnectionStatus::Error(msg) => StatusView::Error(msg@),
        }
    }
}

/// The lower-case word that names a status to a front end.
pub open spec fn label_text(s: StatusView) -> Seq<char> {
    match s {
        StatusView::Disconnected => "disconnected"@,
        StatusView::Connecting => "connecting"@,
        StatusView::Disconnecting => "disconnecting"@,
        StatusView::Connected(_) => "connected"@,
        StatusView::Error(_) => "error"@,
    }
}

/// The tooltip that a tray icon shows for a status.
pub open spec fn tooltip_text(s: StatusView) -> Seq<char> {
    match s {
        StatusView::Disconnected => "N2N UI - 已断开"@,
        StatusView::Connecting => "N2N UI - 连接中..."@,
        StatusView::Disconnecting => "N2N UI - 断开中..."@,
        StatusView::Connected(_) => "N2N UI - 已连接"@,
        StatusView::Error(msg) => "N2N UI - 错误: "@ + msg,
    }
}

/// A status laid out for a front end: its label, the error message if it is
/// an error, and the interface facts if it is connected and they are known.
#[derive(Debug, Clone, PartialEq, Eq)]
pub struct StatusReport {
    pub status: String,
    pub error: Option<String>,
    pub network_info: Option<NetworkInfo>,
}

/// What a `StatusReport` holds, as plain values.
pub struct StatusReportView {
    pub status: Seq<char>,
    pub error: Option<Seq<char>>,
    pub network_info: Option<NetworkInfoView>,
}

impl View for StatusReport {
    type V = StatusReportView;

    open spec fn view(&self) -> StatusReportView {
        StatusReportView {
            status: self.status@,
            error: opt_text(self.error),
            network_info: opt_info(self.network_info),
        }
    }
}

/// The report of a status.
pub open spec fn report_of(s: StatusView) -> StatusReportView {
    StatusReportView {
        status: label_text(s),
        error: match s {
            StatusView::Error(msg) => Some(msg),
            _ => None,
        },
        network_info: match s {
            StatusView::Connected(info) => info,
            _ => None,
        },
    }
}

impl ConnectionStatus {
    /// A copy that holds the same values.
    pub fn duplicate(&self) -> (r: ConnectionStatus)
        ensures
            r@ == self@,
    {
        match self {
            ConnectionStatus::Disconnected => ConnectionStatus::Disconnected,
            ConnectionStatus::Connecting => ConnectionStatus::Connecting,
            ConnectionStatus::Disconnecting => ConnectionStatus::Disconnecting,
            ConnectionStatus::Connected(info) => ConnectionStatus::Connected(clone_opt_info(info)),
            ConnectionStatus::Error(msg) => ConnectionStatus::Error(msg.clone()),
        }
    }

    /// The lower-case word that names this status to a front end.
    pub fn label(&self) -> (r: &'static str)
        ensures
            r@ == label_text(self@),
    {
        match self {
            ConnectionStatus::Disconnected => "disconnected",
            ConnectionStatus::Connecting => "connecting",
            ConnectionStatus::Disconnecting => "disconnecting",
            ConnectionStatus::Connected(_) => "connected",
            ConnectionStatus::Error(_) => "error",
        }
    }

    /// The tooltip that a tray icon shows for this status.
    pub fn tooltip(&self) -> (r: String)
        ensures
            r@ == tooltip_text(self@),
    {
        match self {
            ConnectionStatus::Disconnected => String::from_str("N2N UI - 已断开"),
            ConnectionStatus::Connecting => String::from_str("N2N UI - 连接中..."),
            ConnectionStatus::Disconnecting => String::from_str("N2N UI - 断开中..."),
            ConnectionStatus::Connected(_) => String::from_str("N2N UI - 已连接"),
            ConnectionStatus::Error(msg) => {
                let mut out = String::from_str("N2N UI - 错误: ");
                out.append(msg.as_str());
                out
            },
        }
    }

    /// This status laid out for a front end.
    pub fn report(&self) -> (r: StatusReport)
        ensures
            r@ == report_of(self@),
    {
        let status = String::from_str(self.label());
        match self {
            ConnectionStatus::Connected(info) => StatusReport {
                status,
                error: None,
                network_info: clone_opt_info(info),
            },
            ConnectionStatus::Error(msg) => StatusReport {
                status,
                error: Some(msg.clone()),
                network_info: None,
            },
            _ => StatusReport { status, error: None, network_info: None },
        }
    }
}

} // verus!
