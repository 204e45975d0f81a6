use vstd::prelude::*;

use crate::protocol::ProtocolError;

verus! {

/// Why an operation of the server was refused.
#[derive(Debug, Clone, PartialEq, Eq)]
pub enum AppError {
    Workspace(String),
    SessionAlreadyActive,
    WiredSessionActive,
    WiredConnectionDisabled,
    InvalidSessionId(&'static str),
    Protocol(ProtocolError),
    DesktopShell(String),
    ShortcutPreset(String),
    UnsupportedShortcutKey { platform: &'static str, key: &'static str },
}

/// An error with its messages as character sequences.
pub enum AppErrorModel {
    Workspace(Seq<char>),
    SessionAlreadyActive,
    WiredSessionActive,
    WiredConnectionDisabled,
    InvalidSessionId(Seq<char>),
    Protocol(ProtocolError),
    DesktopShell(Seq<char>),
    ShortcutPreset(Seq<char>),
    UnsupportedShortcutKey { platform: Seq<char>, key: Seq<char> },
}

impl View for AppError {
    type V = AppErrorModel;

    open spec fn view(&self) -> AppErrorModel {
        match self {
            AppError::Workspace(m) => AppErrorModel::Workspace(m@),
            AppError::SessionAlreadyActive => AppErrorModel::SessionAlreadyActive,
            AppError::WiredSessionActive => AppErrorModel::WiredSessionActive,
            AppError::WiredConnectionDisabled => AppErrorModel::WiredConnectionDisabled,
            AppError::InvalidSessionId(m) => AppErrorModel::InvalidSessionId(m@),
            AppError::Protocol(e) => AppErrorModel::Protocol(*e),
            AppError::DesktopShell(m) => AppErrorModel::DesktopShell(m@),
            AppError::ShortcutPreset(m) => AppErrorModel::ShortcutPreset(m@),
            AppError::UnsupportedShortcutKey { platform, key } => AppErrorModel::UnsupportedShortcutKey {
                platform: platform@,
                key: key@,
            },
        }
    }
}

} // verus!
