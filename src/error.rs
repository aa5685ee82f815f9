//! The library's closed error type and the text each error renders to.
use vstd::prelude::*;
use crate::text::{str_append, string_from};

verus! {

/// Every way an operation of the library can fail.
pub enum ControlError {
    /// A named input field was empty.
    EmptyField(String),
    /// A named input field held a character outside its alphabet.
    InvalidCharacters(String),
    SerialPathPrefix,
    SerialPathCharacters,
    EmptyCommand,
    UnsupportedCommand,
    EmptyHost,
    NoCodeContent,
    NotConnected,
    /// The bridge peer closed the connection before replying.
    ConnectionClosed,
    InvalidJson,
    /// The bridge peer answered with a rejection, carrying its reason.
    Rejected(String),
    /// A device, socket or address-resolution failure, with its description.
    Transport(String),
    /// The `sshpass` helper could not be executed.
    SshpassMissing,
    /// The helper process could not be started, or exited unsuccessfully.
    Subprocess(String),
    /// A guarded session slot was poisoned by an earlier panic.
    LockPoisoned,
}

/// What a `ControlError` holds, as mathematical values.
pub enum ErrorView {
    EmptyField(Seq<char>),
    InvalidCharacters(Seq<char>),
    SerialPathPrefix,
    SerialPathCharacters,
    EmptyCommand,
    UnsupportedCommand,
    EmptyHost,
    NoCodeContent,
    NotConnected,
    ConnectionClosed,
    InvalidJson,
    Rejected(Seq<char>),
    Transport(Seq<char>),
    SshpassMissing,
    Subprocess(Seq<char>),
    LockPoisoned,
}

impl View for ControlError {
    type V = ErrorView;

    open spec fn view(&self) -> ErrorView {
        match self {
            ControlError::EmptyField(f) => ErrorView::EmptyField(f@),
            ControlError::InvalidCharacters(f) => ErrorView::InvalidCharacters(f@),
            ControlError::SerialPathPrefix => ErrorView::SerialPathPrefix,
            ControlError::SerialPathCharacters => ErrorView::SerialPathCharacters,
            ControlError::EmptyCommand => ErrorView::EmptyCommand,
            ControlError::UnsupportedCommand => ErrorView::UnsupportedCommand,
            ControlError::EmptyHost => ErrorView::EmptyHost,
            ControlError::NoCodeContent => ErrorView::NoCodeContent,
            ControlError::NotConnected => ErrorView::NotConnected,
            ControlError::ConnectionClosed => ErrorView::ConnectionClosed,
            ControlError::InvalidJson => ErrorView::InvalidJson,
            ControlError::Rejected(m) => ErrorView::Rejected(m@),
            ControlError::Transport(m) => ErrorView::Transport(m@),
            ControlError::SshpassMissing => ErrorView::SshpassMissing,
            ControlError::Subprocess(m) => ErrorView::Subprocess(m@),
            ControlError::LockPoisoned => ErrorView::LockPoisoned,
        }
    }
}

/// The text shown to a user for an error.
pub open spec fn message_of(e: ErrorView) -> Seq<char> {
    match e {
        ErrorView::EmptyField(f) => f + " cannot be empty"@,
        ErrorView::InvalidCharacters(f) => "Invalid characters in "@ + f,
        ErrorView::SerialPathPrefix => "Serial path must start with /dev/"@,
        ErrorView::SerialPathCharacters => "Serial path contains invalid characters"@,
        ErrorView::EmptyCommand => "Command cannot be empty"@,
        ErrorView::UnsupportedCommand => "Unsupported mecanum command (allowed: F,B,L,R,Q,E,S)"@,
        ErrorView::EmptyHost => "host cannot be empty"@,
        ErrorView::NoCodeContent => "No code content to deploy"@,
        ErrorView::NotConnected => "No active serial connection"@,
        ErrorView::ConnectionClosed => "Bridge connection closed"@,
        ErrorView::InvalidJson => "Bridge returned invalid JSON"@,
        ErrorView::Rejected(m) => "Bridge rejected command: "@ + m,
        ErrorView::Transport(m) => m,
        ErrorView::SshpassMissing => "Failed to execute sshpass: install sshpass to use password authentication"@,
        ErrorView::Subprocess(m) => m,
        ErrorView::LockPoisoned => "State lock poisoned"@,
    }
}

impl ControlError {
    /// Renders the error as one line of text.
    pub fn message(&self) -> (r: String)
        ensures
            r@ == message_of(self@),
    {
        match self {
            ControlError::EmptyField(f) => {
                let mut out = string_from(f.as_str());
                str_append(&mut out, " cannot be empty");
                out
            },
            ControlError::InvalidCharacters(f) => {
                let mut out = string_from("Invalid characters in ");
                str_append(&mut out, f.as_str());
                out
            },
            ControlError::SerialPathPrefix => string_from("Serial path must start with /dev/"),
            ControlError::SerialPathCharacters => string_from(
                "Serial path contains invalid characters",
            ),
            ControlError::EmptyCommand => string_from("Command cannot be empty"),
            ControlError::UnsupportedCommand => string_from(
                "Unsupported mecanum command (allowed: F,B,L,R,Q,E,S)",
            ),
            ControlError::EmptyHost => string_from("host cannot be empty"),
            ControlError::NoCodeContent => string_from("No code content to deploy"),
            ControlError::NotConnected => string_from("No active serial connection"),
            ControlError::ConnectionClosed => string_from("Bridge connection closed"),
            ControlError::InvalidJson => string_from("Bridge returned invalid JSON"),
            ControlError::Rejected(m) => {
                let mut out = string_from("Bridge rejected command: ");
                str_append(&mut out, m.as_str());
                out
            },
            ControlError::Transport(m) => string_from(m.as_str()),
            ControlError::SshpassMissing => string_from(
                "Failed to execute sshpass: install sshpass to use password authentication",
            ),
            ControlError::Subprocess(m) => string_from(m.as_str()),
            ControlError::LockPoisoned => string_from("State lock poisoned"),
        }
    }
}

} // verus!
