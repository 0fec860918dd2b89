//! The errors of the library, gathered in one type.

use vstd::prelude::*;
use vstd::string::StringExecFns;
use crate::auth::auth_error_message;
use crate::host::host_error_message;
use crate::host::HostError;
use crate::language::language_error_message;
use crate::language::LanguageError;
use crate::payload::payload_error_message;
use crate::payload::PayloadError;
use crate::project::project_error_message;
use crate::project::ProjectError;
use crate::transport::transport_error_message;
use crate::transport::TransportError;

verus! {

/// Anything that can go wrong in the library.
#[derive(Debug)]
pub enum Error {
    /// The authority refused a request, or its reply broke the protocol.
    Auth(crate::auth::Error),
    /// None of the credentials offered to the remote host was accepted.
    AuthenticationFailed,
    /// A command on the remote host ended with a status other than zero;
    /// holds what it wrote to its output and to its error stream.
    RemoteCommandFailed { stdout: String, stderr: String },
    /// An exchange with the authority did not take place.
    Transport(TransportError),
    /// A file of the project could not be read or written; holds what
    /// the system said.
    Io(String),
    Host(HostError),
    Language(LanguageError),
    Payload(PayloadError),
    Project(ProjectError),
}

/// What the error says, for the operator.
pub open spec fn error_message(e: Error) -> Seq<char> {
    match e {
        Error::Auth(inner) => "Auth error: "@ + auth_error_message(inner),
        Error::AuthenticationFailed => "Bootstrap error: Failed to authenticate to host"@,
        Error::RemoteCommandFailed { stdout, stderr } => "Bootstrap error: stdout: "@ + stdout@
            + "\nstderr: "@ + stderr@,
        Error::Transport(inner) => "Transport error: "@ + transport_error_message(inner),
        Error::Io(detail) => "IO error: "@ + detail@,
        Error::Host(inner) => "Host error: "@ + host_error_message(inner),
        Error::Language(inner) => "Language error: "@ + language_error_message(inner),
        Error::Payload(inner) => "Payload error: "@ + payload_error_message(inner),
        Error::Project(inner) => "Project error: "@ + project_error_message(inner),
    }
}

impl Error {
    /// What the error says, for the operator.
    pub fn message(&self) -> (out: String)
        ensures
            out@ == error_message(*self),
    {
        match self {
            Error::Auth(inner) => {
                let detail = inner.message();
                "Auth error: ".to_owned().concat(detail.as_str())
            },
            Error::AuthenticationFailed => "Bootstrap error: Failed to authenticate to host"
                .to_owned(),
            Error::RemoteCommandFailed { stdout, stderr } => {
                let mut out = "Bootstrap error: stdout: ".to_owned();
                out.append(stdout.as_str());
                out.append("\nstderr: ");
                out.append(stderr.as_str());
                out
            },
            Error::Transport(inner) => "Transport error: ".to_owned().concat(inner.message()),
            Error::Io(detail) => "IO error: ".to_owned().concat(detail.as_str()),
            Error::Host(inner) => "Host error: ".to_owned().concat(inner.message()),
            Error::Language(inner) => {
                let detail = inner.message();
                "Language error: ".to_owned().concat(detail.as_str())
            },
            Error::Payload(inner) => {
                let detail = inner.message();
                "Payload error: ".to_owned().concat(detail.as_str())
            },
            Error::Project(inner) => {
                let detail = inner.message();
                "Project error: ".to_owned().concat(detail.as_str())
            },
        }
    }
}

} // verus!
