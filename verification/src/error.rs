//! Daemon errors, as the client reports them and as the wire carries them.

use vstd::prelude::*;

use crate::protocol::ClientId;
use crate::text::{decimal, decimal_text};

verus! {

/// Why a daemon request failed.
#[derive(Debug, PartialEq, Eq)]
pub enum DaemonError {
    NotRunning,
    PermissionDenied,
    Timeout,
    OutcomeUnknown { client_id: ClientId, request_id: u64 },
    Rejected(String),
    Protocol(String),
}

/// The model of a [`DaemonError`].
pub enum DaemonErrorView {
    NotRunning,
    PermissionDenied,
    Timeout,
    OutcomeUnknown { client_id: ClientId, request_id: u64 },
    Rejected(Seq<char>),
    Protocol(Seq<char>),
}

impl View for DaemonError {
    type V = DaemonErrorView;

    open spec fn view(&self) -> DaemonErrorView {
        match self {
            DaemonError::NotRunning => DaemonErrorView::NotRunning,
            DaemonError::PermissionDenied => DaemonErrorView::PermissionDenied,
            DaemonError::Timeout => DaemonErrorView::Timeout,
            DaemonError::OutcomeUnknown { client_id, request_id } => DaemonErrorView::OutcomeUnknown {
                client_id: *client_id,
                request_id: *request_id,
            },
            DaemonError::Rejected(message) => DaemonErrorView::Rejected(message@),
            DaemonError::Protocol(message) => DaemonErrorView::Protocol(message@),
        }
    }
}

impl Clone for DaemonError {
    fn clone(&self) -> (result: Self)
        ensures
            result@ == self@,
    {
        match self {
            DaemonError::NotRunning => DaemonError::NotRunning,
            DaemonError::PermissionDenied => DaemonError::PermissionDenied,
            DaemonError::Timeout => DaemonError::Timeout,
            DaemonError::OutcomeUnknown { client_id, request_id } => DaemonError::OutcomeUnknown {
                client_id: *client_id,
                request_id: *request_id,
            },
            DaemonError::Rejected(message) => DaemonError::Rejected(message.clone()),
            DaemonError::Protocol(message) => DaemonError::Protocol(message.clone()),
        }
    }
}

impl DaemonErrorView {
    /// The wording of [`DaemonError::message`].
    pub open spec fn message_text(self) -> Seq<char> {
        match self {
            DaemonErrorView::NotRunning => {
                "z13helperd is not running — sudo systemctl start z13helperd.service"@
            },
            DaemonErrorView::PermissionDenied => {
                "permission denied on z13helperd socket — join the z13helper group and re-login"@
            },
            DaemonErrorView::Timeout => "z13helperd timed out"@,
            DaemonErrorView::OutcomeUnknown { client_id, request_id } => {
                "z13helperd request outcome is unknown; query `z13helperctl outcome "@
                    + client_id.hex() + " "@ + decimal(request_id as nat) + "` before retrying"@
            },
            DaemonErrorView::Rejected(message) => message,
            DaemonErrorView::Protocol(message) => "protocol error: "@ + message,
        }
    }
}

impl DaemonError {
    /// The message shown to the user.
    pub fn message(&self) -> (result: String)
        ensures
            result@ == self@.message_text(),
    {
        match self {
            DaemonError::NotRunning => String::from_str(
                "z13helperd is not running — sudo systemctl start z13helperd.service",
            ),
            DaemonError::PermissionDenied => String::from_str(
                "permission denied on z13helperd socket — join the z13helper group and re-login",
            ),
            DaemonError::Timeout => String::from_str("z13helperd timed out"),
            DaemonError::OutcomeUnknown { client_id, request_id } => {
                let mut text: String = String::from_str(
                    "z13helperd request outcome is unknown; query `z13helperctl outcome ",
                );
                text.append(client_id.to_hex().as_str());
                text.append(" ");
                text.append(decimal_text(*request_id as u128).as_str());
                text.append("` before retrying");
                text
            },
            DaemonError::Rejected(message) => message.clone(),
            DaemonError::Protocol(message) => {
                let mut text: String = String::from_str("protocol error: ");
                text.append(message.as_str());
                text
            },
        }
    }
}

/// The error classes of the wire protocol.
#[derive(Clone, Copy, Debug, PartialEq, Eq, Structural)]
pub enum ErrorCode {
    NotRunning,
    PermissionDenied,
    Timeout,
    Rejected,
    Protocol,
    Unsupported,
    Degraded,
}

/// An error as a response carries it.
#[derive(Clone, Debug, PartialEq, Eq)]
pub struct WireError {
    pub code: ErrorCode,
    pub message: String,
}

} // verus!
