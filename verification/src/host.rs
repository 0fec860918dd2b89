//! Hosts known to a project, each with a certificate file of its own.

use vstd::prelude::*;
use vstd::string::StringExecFns;
use crate::cli::COPY_ABOVE;
use crate::cli::COPY_BELOW;

verus! {

/// Directory, below the project's, that holds the hosts' certificates.
pub const HOSTS_DIR: &'static str = ".hosts";

/// A host and the place of its certificate.
#[derive(Debug)]
pub struct Host {
    hostname: String,
    path: String,
}

/// Why a host could not be added or removed.
#[derive(Clone, Copy, Debug, PartialEq, Eq, Structural)]
pub enum HostError {
    /// The host has a certificate already.
    AddExisting,
    /// The host has no certificate.
    RemoveNonexistent,
}

/// Where the certificate of the host `hostname` is kept.
pub open spec fn cert_path_spec(hostname: Seq<char>) -> Seq<char> {
    HOSTS_DIR@ + "/"@ + hostname + ".crt"@
}

/// What the operator is told with the certificate of a new host.
pub open spec fn installation_notice_spec(hostname: Seq<char>, document: Seq<char>) -> Seq<char> {
    "A new host certificate has been generated for "@ + hostname + ".\n\n"@
        + "To complete the installation, please copy+paste this certificate into\n"@
        + "the host's certificate path.\n\n"@ + COPY_BELOW@ + "\n"@ + document + "\n"@
        + COPY_ABOVE@
}

/// What the error says, for the operator.
pub open spec fn host_error_message(e: HostError) -> Seq<char> {
    match e {
        HostError::AddExisting => "Cannot add existing host"@,
        HostError::RemoveNonexistent => "Cannot remove non-existent host"@,
    }
}

impl Host {
    /// The host's name.
    pub closed spec fn hostname_spec(&self) -> Seq<char> {
        self.hostname@
    }

    /// The place of the host's certificate.
    pub closed spec fn path_spec(&self) -> Seq<char> {
        self.path@
    }

    /// The host called `hostname`.
    pub fn new(hostname: &str) -> (host: Host)
        ensures
            host.hostname_spec() == hostname@,
            host.path_spec() == cert_path_spec(hostname@),
    {
        let mut path = HOSTS_DIR.to_owned();
        path.append("/");
        path.append(hostname);
        path.append(".crt");
        Host { hostname: hostname.to_owned(), path }
    }

    /// The host's name.
    pub fn hostname(&self) -> (r: &str)
        ensures
            r@ == self.hostname_spec(),
    {
        self.hostname.as_str()
    }

    /// The place of the host's certificate.
    pub fn path(&self) -> (r: &str)
        ensures
            r@ == self.path_spec(),
    {
        self.path.as_str()
    }

    /// What the operator is told with the secret document of the host's
    /// new certificate.
    pub fn installation_notice(&self, document: &str) -> (out: String)
        ensures
            out@ == installation_notice_spec(self.hostname_spec(), document@),
    {
        let mut out = "A new host certificate has been generated for ".to_owned();
        out.append(self.hostname.as_str());
        out.append(".\n\n");
        out.append("To complete the installation, please copy+paste this certificate into\n");
        out.append("the host's certificate path.\n\n");
        out.append(COPY_BELOW);
        out.append("\n");
        out.append(document);
        out.append("\n");
        out.append(COPY_ABOVE);
        out
    }

    /// Whether the host may be added, given whether its certificate is
    /// there already.
    pub fn add(&self, present: bool) -> (r: Result<(), HostError>)
        ensures
            r == if present {
                Err::<(), HostError>(HostError::AddExisting)
            } else {
                Ok::<(), HostError>(())
            },
    {
        if present {
            Err(HostError::AddExisting)
        } else {
            Ok(())
        }
    }

    /// Whether the host may be removed, given whether its certificate is
    /// there.
    pub fn remove(&self, present: bool) -> (r: Result<(), HostError>)
        ensures
            r == if present {
                Ok::<(), HostError>(())
            } else {
                Err::<(), HostError>(HostError::RemoveNonexistent)
            },
    {
        if present {
            Ok(())
        } else {
            Err(HostError::RemoveNonexistent)
        }
    }
}

impl HostError {
    /// What the error says, for the operator.
    pub fn message(&self) -> (out: &'static str)
        ensures
            out@ == host_error_message(*self),
    {
        match self {
            HostError::AddExisting => "Cannot add existing host",
            HostError::RemoveNonexistent => "Cannot remove non-existent host",
        }
    }
}

} // verus!
