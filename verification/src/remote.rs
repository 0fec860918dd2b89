//! The session with a host's remote shell.
//!
//! The library holds what the session is opened with and what is known of
//! it: which user it belongs to, whether the host has accepted that user,
//! and whether the user is root. The connection itself is the caller's.
//! The caller connects as [`RemoteSession::connect`] says, reports the
//! host's verdict with [`RemoteSession::authenticated`], runs each command
//! in a channel of its own, and has [`exec_outcome`] judge how it ended.

use vstd::prelude::*;
use vstd::string::StringExecFns;
use crate::error::Error;
use crate::text::decimal;
use crate::text::decimal_spec;
use crate::text::str_eq;

verus! {

/// Port of the remote shell service, where the operator names none.
pub const DEFAULT_SSH_PORT: u32 = 22;

/// The user that has every privilege on a host, and the one to connect as
/// where the operator names none.
pub const ROOT: &'static str = "root";

/// What is put before a command that needs privileges, for a user other
/// than root.
pub const SUDO: &'static str = "sudo";

/// How the operator proves who they are to the host.
pub enum AuthMethod {
    /// By the private key in this file.
    IdentityFile(String),
    /// By this password.
    Password(String),
    /// By the keys that the operator's local agent holds.
    Agent,
}

/// A way to authenticate as mathematical values.
pub enum AuthMethodView {
    IdentityFile(Seq<char>),
    Password(Seq<char>),
    Agent,
}

impl View for AuthMethod {
    type V = AuthMethodView;

    open spec fn view(&self) -> AuthMethodView {
        match self {
            AuthMethod::IdentityFile(path) => AuthMethodView::IdentityFile(path@),
            AuthMethod::Password(password) => AuthMethodView::Password(password@),
            AuthMethod::Agent => AuthMethodView::Agent,
        }
    }
}

/// What it takes to open the session: where to connect, as whom, and the
/// one way in which that user is authenticated.
pub struct Login {
    /// Host name and port of the remote shell service.
    pub address: String,
    /// The user to connect as.
    pub username: String,
    /// How that user is authenticated.
    pub method: AuthMethod,
}

/// A login as mathematical values.
pub struct LoginView {
    pub address: Seq<char>,
    pub username: Seq<char>,
    pub method: AuthMethodView,
}

impl View for Login {
    type V = LoginView;

    open spec fn view(&self) -> LoginView {
        LoginView { address: self.address@, username: self.username@, method: self.method@ }
    }
}

/// The session with one host.
pub struct RemoteSession {
    hostname: String,
    login: Login,
    is_root: bool,
    authenticated: bool,
}

/// A session as mathematical values.
pub struct RemoteSessionView {
    /// Name of the host.
    pub hostname: Seq<char>,
    /// What the session is opened with.
    pub login: LoginView,
    /// Whether the user of the session is root.
    pub is_root: bool,
    /// Whether the host has accepted the user.
    pub authenticated: bool,
}

impl View for RemoteSession {
    type V = RemoteSessionView;

    closed spec fn view(&self) -> RemoteSessionView {
        RemoteSessionView {
            hostname: self.hostname@,
            login: self.login@,
            is_root: self.is_root,
            authenticated: self.authenticated,
        }
    }
}

/// The address of the remote shell service: the host's name, a colon, and
/// the port, which is 22 unless the operator names another.
pub open spec fn address_spec(hostname: Seq<char>, port: Option<u32>) -> Seq<char> {
    hostname + ":"@ + decimal_spec(
        match port {
            Some(p) => p as nat,
            None => DEFAULT_SSH_PORT as nat,
        },
    )
}

/// The user to connect as: root unless the operator names another.
pub open spec fn username_spec(username: Option<&str>) -> Seq<char> {
    match username {
        Some(name) => name@,
        None => ROOT@,
    }
}

/// The one way in which the operator is authenticated: by the identity
/// file if one is given; else by the password if one is given; else by
/// the local agent.
pub open spec fn method_spec(password: Option<&str>, identity_file: Option<&str>) -> AuthMethodView {
    match identity_file {
        Some(path) => AuthMethodView::IdentityFile(path@),
        None => match password {
            Some(word) => AuthMethodView::Password(word@),
            None => AuthMethodView::Agent,
        },
    }
}

/// What is put before a privileged command: nothing for root, `sudo` for
/// anyone else.
pub open spec fn sudo_spec(is_root: bool) -> Seq<char> {
    if is_root {
        Seq::<char>::empty()
    } else {
        SUDO@
    }
}

/// What a command that has ended means: its output if its status is
/// zero, else a failure that keeps both of its streams.
pub fn exec_outcome(stdout: String, stderr: String, status: i32) -> (r: Result<String, Error>)
    ensures
        status == 0 ==> (r matches Ok(out) && out == stdout),
        status != 0 ==> (r matches Err(Error::RemoteCommandFailed { stdout: out, stderr: err })
            && out == stdout && err == stderr),
{
    if status == 0 {
        Ok(stdout)
    } else {
        Err(Error::RemoteCommandFailed { stdout, stderr })
    }
}

impl AuthMethod {
    /// A copy of the method.
    pub fn duplicate(&self) -> (copy: AuthMethod)
        ensures
            copy@ == self@,
    {
        match self {
            AuthMethod::IdentityFile(path) => AuthMethod::IdentityFile(path.clone()),
            AuthMethod::Password(word) => AuthMethod::Password(word.clone()),
            AuthMethod::Agent => AuthMethod::Agent,
        }
    }
}

impl RemoteSession {
    /// A session with the host `hostname`, not opened yet.
    ///
    /// The connection goes to the given port, or to port 22. The operator
    /// connects as `username`, or as root, and is authenticated in one
    /// way: by the identity file if one is given, else by the password if
    /// one is given, else by the local agent.
    pub fn new(
        hostname: &str,
        port: Option<u32>,
        username: Option<&str>,
        password: Option<&str>,
        identity_file: Option<&str>,
    ) -> (session: RemoteSession)
        ensures
            session@ == (RemoteSessionView {
                hostname: hostname@,
                login: LoginView {
                    address: address_spec(hostname@, port),
                    username: username_spec(username),
                    method: method_spec(password, identity_file),
                },
                is_root: username_spec(username) == ROOT@,
                authenticated: false,
            }),
    {
        let mut address = hostname.to_owned();
        address.append(":");
        let digits = match port {
            Some(p) => decimal(p),
            None => decimal(DEFAULT_SSH_PORT),
        };
        address.append(digits.as_str());
        let user = match username {
            Some(name) => name,
            None => ROOT,
        };
        let method = match identity_file {
            Some(path) => AuthMethod::IdentityFile(path.to_owned()),
            None => match password {
                Some(word) => AuthMethod::Password(word.to_owned()),
                None => AuthMethod::Agent,
            },
        };
        RemoteSession {
            hostname: hostname.to_owned(),
            login: Login { address, username: user.to_owned(), method },
            is_root: str_eq(user, ROOT),
            authenticated: false,
        }
    }

    /// Name of the host.
    pub fn hostname(&self) -> (name: &str)
        ensures
            name@ == self@.hostname,
    {
        self.hostname.as_str()
    }

    /// How to open the session: connect to the address, shake hands, and
    /// authenticate the user by the method and by nothing else.
    pub fn connect(&self) -> (login: Login)
        ensures
            login@ == self@.login,
    {
        Login {
            address: self.login.address.clone(),
            username: self.login.username.clone(),
            method: self.login.method.duplicate(),
        }
    }

    /// Takes note of the host's verdict on the user: the session is
    /// authenticated if and only if the host accepted the user.
    pub fn authenticated(&mut self, accepted: bool) -> (r: Result<(), Error>)
        ensures
            final(self)@ == (RemoteSessionView { authenticated: accepted, ..old(self)@ }),
            accepted ==> r is Ok,
            !accepted ==> r matches Err(Error::AuthenticationFailed),
    {
        self.authenticated = accepted;
        if accepted {
            Ok(())
        } else {
            Err(Error::AuthenticationFailed)
        }
    }

    /// Whether the host has accepted the user.
    pub fn is_authenticated(&self) -> (yes: bool)
        ensures
            yes == self@.authenticated,
    {
        self.authenticated
    }

    /// Whether the user of the session is root.
    pub fn is_root(&self) -> (root: bool)
        ensures
            root == self@.is_root,
    {
        self.is_root
    }

    /// What is put before a privileged command in this session.
    pub fn sudo(&self) -> (prefix: &'static str)
        ensures
            prefix@ == sudo_spec(self@.is_root),
    {
        if self.is_root {
            proof {
                reveal_strlit("");
                assert(""@ =~= Seq::<char>::empty());
            }
            ""
        } else {
            SUDO
        }
    }
}

} // verus!
