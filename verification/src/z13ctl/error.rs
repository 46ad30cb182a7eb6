//! Why a z13ctl request failed.

use vstd::prelude::*;

verus! {

/// Why a z13ctl request failed.
#[derive(Debug, PartialEq, Eq)]
pub enum DaemonError {
    NotRunning,
    PermissionDenied,
    Timeout,
    Rejected(String),
    Protocol(String),
}

/// The model of a [`DaemonError`].
pub enum DaemonErrorView {
    NotRunning,
    PermissionDenied,
    Timeout,
    Rejected(Seq<char>),
    Protocol(Seq<char>),
}

impl View for DaemonError {
    type V = DaemonErrorView;

    open spec fn view(&self) -> DaemonErrorView {
        match self {
            DaemonError::NotRunning => DaemonErrorView::NotRunning,
            DaemonError::PermissionDenied => DaemonErrorView::PermissionDenied,
            DaemonError::Timeout => DaemonErrorView::Timeout,
            DaemonError::Rejected(message) => DaemonErrorView::Rejected(message@),
            DaemonError::Protocol(message) => DaemonErrorView::Protocol(message@),
        }
    }
}

impl Clone for DaemonError {
    fn clone(&self) -> (result: Self)
        ensures
            result@ == self@,
    {
        match self {
            DaemonError::NotRunning => DaemonError::NotRunning,
            DaemonError::PermissionDenied => DaemonError::PermissionDenied,
            DaemonError::Timeout => DaemonError::Timeout,
            DaemonError::Rejected(message) => DaemonError::Rejected(message.clone()),
            DaemonError::Protocol(message) => DaemonError::Protocol(message.clone()),
        }
    }
}

impl DaemonErrorView {
    /// The wording of [`DaemonError::message`].
    pub open spec fn message_text(self) -> Seq<char> {
        match self {
            DaemonErrorView::NotRunning => {
                "z13ctl daemon not running — systemctl --user start z13ctl.service"@
            },
            DaemonErrorView::PermissionDenied => {
                "permission denied on z13ctl socket — run `sudo z13ctl setup` and re-login"@
            },
            DaemonErrorView::Timeout => "z13ctl daemon timed out"@,
            DaemonErrorView::Rejected(message) => message,
            DaemonErrorView::Protocol(message) => "protocol error: "@ + message,
        }
    }
}

impl DaemonError {
    /// The message shown to the user.
    pub fn message(&self) -> (result: String)
        ensures
            result@ == self@.message_text(),
    {
        match self {
            DaemonError::NotRunning => String::from_str(
                "z13ctl daemon not running — systemctl --user start z13ctl.service",
            ),
            DaemonError::PermissionDenied => String::from_str(
                "permission denied on z13ctl socket — run `sudo z13ctl setup` and re-login",
            ),
            DaemonError::Timeout => String::from_str("z13ctl daemon timed out"),
            DaemonError::Rejected(message) => message.clone(),
            DaemonError::Protocol(message) => {
                let mut text: String = String::from_str("protocol error: ");
                text.append(message.as_str());
                text
            },
        }
    }
}

/// A result with a daemon error, as its model.
pub open spec fn modelled<T>(result: Result<T, DaemonError>) -> Result<T, DaemonErrorView> {
    match result {
        Ok(value) => Ok(value),
        Err(error) => Err(error@),
    }
}

/// A failed result that reports a violation of the protocol.
pub(crate) fn violation<T>(text: &str) -> (result: Result<T, DaemonError>)
    ensures
        result matches Err(error) && error@ == DaemonErrorView::Protocol(text@),
{
    Err(DaemonError::Protocol(String::from_str(text)))
}

} // verus!
