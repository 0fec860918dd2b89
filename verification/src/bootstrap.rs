//! Bringing a new host into the fleet.
//!
//! The provisioner connects to the host, has the authority issue a
//! certificate for it, renders the installation script with that
//! certificate, and has the script uploaded and run on the host.
//!
//! The library decides each step and computes what it takes; the caller
//! carries the steps out. After [`Bootstrap::new`] the caller opens the
//! session with the host as [`Bootstrap::connect`] says and reports the
//! host's verdict with [`Bootstrap::authenticated`]. Then
//! [`Bootstrap::run`] hands out the first [`Action`], and
//! [`Bootstrap::advance`] takes the [`Event`] that answers an action and
//! hands out the next one, until the action is [`Action::Finish`].
//! [`Bootstrap::step`] does the same for any event, and drops one that
//! answers nothing.
//!
//! The script is rendered by replacing one placeholder after the other, in
//! the order of [`render_script_spec`], each time in the whole text as it
//! stands. So a value that was put in earlier is searched for the
//! placeholders that are replaced later: a certificate or a pre-install
//! script that holds the text `{{SUDO}}` has it replaced. A value is never
//! searched for its own placeholder, nor for one that was replaced before
//! it was put in: a post-install script that holds the text `{{AUTHHOST}}`
//! keeps it as it is. Values are not escaped.
//!
//! The rendered script holds the host's secret key. It is kept in memory
//! only, and neither the script nor an action that carries it is to be
//! logged or stored.

use vstd::prelude::*;
use vstd::string::StringExecFns;
use crate::cert::document_spec;
use crate::cert::is_timestamp;
use crate::cert::Cert;
use crate::error::Error;
use crate::remote::exec_outcome;
use crate::remote::sudo_spec;
use crate::remote::Login;
use crate::remote::LoginView;
use crate::remote::RemoteSession;
use crate::remote::RemoteSessionView;
use crate::text::decimal;
use crate::text::decimal_spec;
use crate::text::substitute;
use crate::text::substitute_spec;
use crate::text::trim;
use crate::text::trim_spec;

verus! {

/// Type of the certificate that is issued for a host.
pub const HOST_CERT_TYPE: &'static str = "host";

/// The command that makes an empty file on the host and writes its path.
pub const MKTEMP_COMMAND: &'static str = "mktemp 2>/dev/null || mktemp -t in-bootstrap";

/// The installation script, with a placeholder wherever a value goes.
pub const BOOTSTRAP_SOURCE: &'static str = "#!/bin/sh
set -u

main() {
    # Run any user-defined preinstall scripts
    {{PREINSTALL}}

    local _tmpdir=\"$(mktemp -d 2>/dev/null || ensure mktemp -d -t intecture)\"
    cd $_tmpdir

    # Install agent
    curl -sSf https://get.intecture.io | sh -s -- -y -d $_tmpdir agent || exit 1

    # Create agent cert
    cat << \"EOF\" > agent.crt
{{AGENTCERT}}
EOF

    # Create auth cert
    cat << \"EOF\" > auth.crt
{{AUTHCERT}}
EOF

    {{SUDO}} $_tmpdir/agent/installer.sh install_certs agent.crt auth.crt
    {{SUDO}} $_tmpdir/agent/installer.sh amend_conf auth_server \"{{AUTHHOST}}\"
    {{SUDO}} $_tmpdir/agent/installer.sh amend_conf auth_update_port {{AUTHPORT}}
    {{SUDO}} $_tmpdir/agent/installer.sh start_daemon

    # Check that inagent is up and running
    sleep 1
    local _pid=$(pidof inagent)
    if [ ! -n $_pid ]; then
        echo \"Failed to start inagent daemon\"
        exit 1
    fi

    # Run any user-defined postinstall scripts
    {{POSTINSTALL}}
}

main || exit 1
";

/// What the caller is to do next.
pub enum Action {
    /// Have the authority issue a certificate of type `cert_type` for
    /// `name`. Answered by [`Event::Issued`].
    Issue { cert_type: String, name: String },
    /// Read the authority's public certificate and the project's
    /// configuration. Answered by [`Event::Loaded`].
    Load,
    /// Run this command on the host, in a channel of its own, and read its
    /// output to the end. Answered by [`Event::Exited`].
    Exec(String),
    /// Nothing is left to do: the host is provisioned.
    Finish,
}

/// An action as mathematical values.
pub enum ActionView {
    Issue { cert_type: Seq<char>, name: Seq<char> },
    Load,
    Exec(Seq<char>),
    Finish,
}

impl View for Action {
    type V = ActionView;

    open spec fn view(&self) -> ActionView {
        match self {
            Action::Issue { cert_type, name } => ActionView::Issue {
                cert_type: cert_type@,
                name: name@,
            },
            Action::Load => ActionView::Load,
            Action::Exec(command) => ActionView::Exec(command@),
            Action::Finish => ActionView::Finish,
        }
    }
}

/// What came of an action.
pub enum Event {
    /// The authority issued this certificate.
    Issued(Cert),
    /// The text of the authority's public certificate, and from the
    /// project's configuration the authority's host name and the port on
    /// which it publishes updates.
    Loaded { auth_cert: String, auth_host: String, auth_port: u32 },
    /// The command ended with `status`, having written `stdout` to its
    /// output and `stderr` to its error stream.
    Exited { stdout: String, stderr: String, status: i32 },
    /// The action could not be carried out, for this reason.
    Failed(Error),
}

/// How far the provisioning has come.
#[derive(Clone, Copy, Debug, PartialEq, Eq, Structural)]
pub enum Stage {
    /// The run has not begun.
    Idle,
    /// The certificate is being issued.
    Issuing,
    /// The authority's certificate and the configuration are being read.
    Loading,
    /// The file for the script is being made on the host.
    MakingTemp,
    /// The script is being written to the host.
    Uploading,
    /// The script is running on the host.
    Running,
    /// The host is provisioned.
    Done,
    /// A step failed; nothing more is done.
    Failed,
}

/// The provisioner of one host.
pub struct Bootstrap {
    remote: RemoteSession,
    stage: Stage,
    preinstall: String,
    postinstall: String,
    agent_cert: String,
    script: String,
    path: String,
}

/// A provisioner as mathematical values.
pub struct BootstrapView {
    /// The session with the host.
    pub remote: RemoteSessionView,
    /// How far the provisioning has come.
    pub stage: Stage,
    /// The operator's script to run before the installation.
    pub preinstall: Seq<char>,
    /// The operator's script to run after the installation.
    pub postinstall: Seq<char>,
    /// The secret document of the host's certificate, once issued.
    pub agent_cert: Seq<char>,
    /// The rendered script, once rendered.
    pub script: Seq<char>,
    /// What the host wrote as the path of the file for the script.
    pub path: Seq<char>,
}

impl View for Bootstrap {
    type V = BootstrapView;

    closed spec fn view(&self) -> BootstrapView {
        BootstrapView {
            remote: self.remote@,
            stage: self.stage,
            preinstall: self.preinstall@,
            postinstall: self.postinstall@,
            agent_cert: self.agent_cert@,
            script: self.script@,
            path: self.path@,
        }
    }
}

/// The text of an optional value: its own, or nothing.
pub open spec fn text_or_empty(value: Option<&str>) -> Seq<char> {
    match value {
        Some(text) => text@,
        None => Seq::<char>::empty(),
    }
}

/// The installation script with its values put in.
///
/// The placeholders are replaced one after the other, each in the whole
/// text that the replacements before it have left.
pub open spec fn render_script_spec(
    agent_cert: Seq<char>,
    auth_cert: Seq<char>,
    auth_host: Seq<char>,
    auth_port: Seq<char>,
    preinstall: Seq<char>,
    postinstall: Seq<char>,
    sudo: Seq<char>,
) -> Seq<char> {
    let s0 = BOOTSTRAP_SOURCE@;
    let s1 = substitute_spec(s0, "{{AGENTCERT}}"@, agent_cert);
    let s2 = substitute_spec(s1, "{{AUTHCERT}}"@, auth_cert);
    let s3 = substitute_spec(s2, "{{AUTHHOST}}"@, auth_host);
    let s4 = substitute_spec(s3, "{{AUTHPORT}}"@, auth_port);
    let s5 = substitute_spec(s4, "{{PREINSTALL}}"@, preinstall);
    let s6 = substitute_spec(s5, "{{POSTINSTALL}}"@, postinstall);
    substitute_spec(s6, "{{SUDO}}"@, sudo)
}

/// The command that makes the file at `path` executable and writes
/// `script` into it. The white space around `path` is dropped.
pub open spec fn upload_command_spec(path: Seq<char>, script: Seq<char>) -> Seq<char> {
    "chmod u+x "@ + trim_spec(path) + " && cat << \"EOS\" > "@ + trim_spec(path) + "\n"@ + script
        + "\nEOS"@
}

/// Renders the installation script.
pub fn render_script(
    agent_cert: &str,
    auth_cert: &str,
    auth_host: &str,
    auth_port: u32,
    preinstall: &str,
    postinstall: &str,
    is_root: bool,
) -> (script: String)
    ensures
        script@ == render_script_spec(
            agent_cert@,
            auth_cert@,
            auth_host@,
            decimal_spec(auth_port as nat),
            preinstall@,
            postinstall@,
            sudo_spec(is_root),
        ),
{
    let port = decimal(auth_port);
    let s1 = substitute(BOOTSTRAP_SOURCE, "{{AGENTCERT}}", agent_cert);
    let s2 = substitute(s1.as_str(), "{{AUTHCERT}}", auth_cert);
    let s3 = substitute(s2.as_str(), "{{AUTHHOST}}", auth_host);
    let s4 = substitute(s3.as_str(), "{{AUTHPORT}}", port.as_str());
    let s5 = substitute(s4.as_str(), "{{PREINSTALL}}", preinstall);
    let s6 = substitute(s5.as_str(), "{{POSTINSTALL}}", postinstall);
    if is_root {
        proof {
            reveal_strlit("");
            assert(""@ =~= Seq::<char>::empty());
        }
        substitute(s6.as_str(), "{{SUDO}}", "")
    } else {
        substitute(s6.as_str(), "{{SUDO}}", crate::remote::SUDO)
    }
}

/// The command that makes the file at `path` executable and writes
/// `script` into it.
pub fn upload_command(path: &str, script: &str) -> (command: String)
    ensures
        command@ == upload_command_spec(path@, script@),
{
    let place = trim(path);
    let mut command = "chmod u+x ".to_owned();
    command.append(place);
    command.append(" && cat << \"EOS\" > ");
    command.append(place);
    command.append("\n");
    command.append(script);
    command.append("\nEOS");
    command
}

impl Bootstrap {
    /// A provisioner for the host `hostname`, with the session that
    /// [`RemoteSession::new`] makes of the same arguments. Nothing has
    /// begun.
    pub fn new(
        hostname: &str,
        port: Option<u32>,
        username: Option<&str>,
        password: Option<&str>,
        identity_file: Option<&str>,
    ) -> (b: Bootstrap)
        ensures
            b@ == (BootstrapView {
                remote: RemoteSessionView {
                    hostname: hostname@,
                    login: LoginView {
                        address: crate::remote::address_spec(hostname@, port),
                        username: crate::remote::username_spec(username),
                        method: crate::remote::method_spec(password, identity_file),
                    },
                    is_root: crate::remote::username_spec(username) == crate::remote::ROOT@,
                    authenticated: false,
                },
                stage: Stage::Idle,
                preinstall: Seq::<char>::empty(),
                postinstall: Seq::<char>::empty(),
                agent_cert: Seq::<char>::empty(),
                script: Seq::<char>::empty(),
                path: Seq::<char>::empty(),
            }),
    {
        Bootstrap {
            remote: RemoteSession::new(hostname, port, username, password, identity_file),
            stage: Stage::Idle,
            preinstall: String::new(),
            postinstall: String::new(),
            agent_cert: String::new(),
            script: String::new(),
            path: String::new(),
        }
    }

    /// How far the provisioning has come.
    pub fn stage(&self) -> (stage: Stage)
        ensures
            stage == self@.stage,
    {
        self.stage
    }

    /// The session with the host.
    pub fn remote(&self) -> (remote: &RemoteSession)
        ensures
            remote@ == self@.remote,
    {
        &self.remote
    }

    /// How to open the session with the host.
    pub fn connect(&self) -> (login: Login)
        ensures
            login@ == self@.remote.login,
    {
        self.remote.connect()
    }

    /// Takes note of the host's verdict on the operator. A refusal fails
    /// the provisioning: nothing more is done. Once the run has begun or
    /// the provisioning has failed, the call changes nothing and tells
    /// whether the session is authenticated.
    pub fn authenticated(&mut self, accepted: bool) -> (r: Result<(), Error>)
        ensures
            final(self)@ == after_verdict(old(self)@, accepted),
            final(self)@.remote.authenticated ==> r is Ok,
            !final(self)@.remote.authenticated ==> r matches Err(Error::AuthenticationFailed),
    {
        if self.stage == Stage::Idle {
            if !accepted {
                self.stage = Stage::Failed;
            }
            self.remote.authenticated(accepted)
        } else if self.remote.is_authenticated() {
            Ok(())
        } else {
            Err(Error::AuthenticationFailed)
        }
    }

    /// Begins the run: takes the operator's scripts, where there are any,
    /// and asks for the host's certificate to be issued.
    ///
    /// The run begins only once, and only in an authenticated session.
    /// Otherwise nothing changes and the call reports that the operator
    /// is not authenticated for it.
    pub fn run(&mut self, preinstall: Option<&str>, postinstall: Option<&str>) -> (r: Result<
        Action,
        Error,
    >)
        ensures
            may_run(old(self)@) ==> final(self)@ == (BootstrapView {
                stage: Stage::Issuing,
                preinstall: text_or_empty(preinstall),
                postinstall: text_or_empty(postinstall),
                ..old(self)@
            }),
            may_run(old(self)@) ==> (r matches Ok(action) && action@ == (ActionView::Issue {
                cert_type: HOST_CERT_TYPE@,
                name: old(self)@.remote.hostname,
            })),
            !may_run(old(self)@) ==> final(self)@ == old(self)@,
            !may_run(old(self)@) ==> r matches Err(Error::AuthenticationFailed),
    {
        if self.stage != Stage::Idle || !self.remote.is_authenticated() {
            return Err(Error::AuthenticationFailed);
        }
        self.preinstall = match preinstall {
            Some(text) => text.to_owned(),
            None => String::new(),
        };
        self.postinstall = match postinstall {
            Some(text) => text.to_owned(),
            None => String::new(),
        };
        self.stage = Stage::Issuing;
        Ok(
            Action::Issue {
                cert_type: HOST_CERT_TYPE.to_owned(),
                name: self.remote.hostname().to_owned(),
            },
        )
    }

    /// Whether `event` answers the action that is under way.
    pub fn awaits(&self, event: &Event) -> (yes: bool)
        ensures
            yes == awaits(self@.stage, *event),
    {
        match event {
            Event::Issued(_) => self.stage == Stage::Issuing,
            Event::Loaded { .. } => self.stage == Stage::Loading,
            Event::Exited { .. } => self.stage == Stage::MakingTemp || self.stage
                == Stage::Uploading || self.stage == Stage::Running,
            Event::Failed(_) => self.stage == Stage::Issuing || self.stage == Stage::Loading
                || self.stage == Stage::MakingTemp || self.stage == Stage::Uploading || self.stage
                == Stage::Running,
        }
    }

    /// Takes the event that answers the action under way, and hands out
    /// the next action.
    ///
    /// - After [`Action::Issue`]: keeps the secret document of the new
    ///   certificate and asks for the authority's certificate and the
    ///   configuration.
    /// - After [`Action::Load`]: renders the script and asks for a file on
    ///   the host.
    /// - After each [`Action::Exec`]: a status other than zero fails the
    ///   provisioning with what the command wrote. Else the file is filled
    ///   and made executable, then run, and then nothing is left.
    /// - After any action that could not be carried out: the provisioning
    ///   fails with the reason given, as it is. Nothing is retried and
    ///   nothing is undone: a certificate that was issued stays issued.
    pub fn advance(&mut self, event: Event) -> (r: Result<Action, Error>)
        requires
            awaits(old(self)@.stage, event),
        ensures
            advanced(old(self)@, event, final(self)@, r),
    {
        match event {
            Event::Failed(reason) => {
                self.stage = Stage::Failed;
                Err(reason)
            },
            Event::Issued(cert) => {
                self.agent_cert = cert.secret();
                self.stage = Stage::Loading;
                Ok(Action::Load)
            },
            Event::Loaded { auth_cert, auth_host, auth_port } => {
                self.script = render_script(
                    self.agent_cert.as_str(),
                    auth_cert.as_str(),
                    auth_host.as_str(),
                    auth_port,
                    self.preinstall.as_str(),
                    self.postinstall.as_str(),
                    self.remote.is_root(),
                );
                self.stage = Stage::MakingTemp;
                Ok(Action::Exec(MKTEMP_COMMAND.to_owned()))
            },
            Event::Exited { stdout, stderr, status } => {
                let stdout = match exec_outcome(stdout, stderr, status) {
                    Ok(out) => out,
                    Err(e) => {
                        self.stage = Stage::Failed;
                        return Err(e);
                    },
                };
                if self.stage == Stage::MakingTemp {
                    let command = upload_command(stdout.as_str(), self.script.as_str());
                    self.path = stdout;
                    self.stage = Stage::Uploading;
                    Ok(Action::Exec(command))
                } else if self.stage == Stage::Uploading {
                    self.stage = Stage::Running;
                    Ok(Action::Exec(self.path.clone()))
                } else {
                    self.stage = Stage::Done;
                    Ok(Action::Finish)
                }
            },
        }
    }

    /// Takes `event` if it answers the action that is under way, as
    /// [`Bootstrap::advance`] does. Any other event is dropped: nothing
    /// changes and nothing is handed out.
    pub fn step(&mut self, event: Event) -> (r: Option<Result<Action, Error>>)
        ensures
            awaits(old(self)@.stage, event) ==> (r matches Some(outcome) && advanced(
                old(self)@,
                event,
                final(self)@,
                outcome,
            )),
            !awaits(old(self)@.stage, event) ==> r is None && final(self)@ == old(self)@,
    {
        if self.awaits(&event) {
            Some(self.advance(event))
        } else {
            None
        }
    }
}

/// What [`Bootstrap::advance`] makes of `event`: the provisioner that it
/// leaves and what it hands out.
pub open spec fn advanced(
    before: BootstrapView,
    event: Event,
    after: BootstrapView,
    r: Result<Action, Error>,
) -> bool {
    match event {
        Event::Issued(cert) => r matches Ok(action) && action@ == ActionView::Load && after == (
        BootstrapView { stage: Stage::Loading, agent_cert: after.agent_cert, ..before })
            && exists|timestamp: Seq<char>|
            is_timestamp(timestamp) && after.agent_cert == #[trigger] document_spec(
                cert@,
                true,
                timestamp,
            ),
        Event::Loaded { auth_cert, auth_host, auth_port } => after == after_loaded(
            before,
            auth_cert@,
            auth_host@,
            auth_port,
        ) && (r matches Ok(action) && action@ == ActionView::Exec(MKTEMP_COMMAND@)),
        Event::Exited { stdout, stderr, status } => after == after_exit(
            before,
            stdout@,
            status as int,
        ) && (match next_command(before, stdout@, status as int) {
            Some(action) => r matches Ok(a) && a@ == action,
            None => r matches Err(Error::RemoteCommandFailed { stdout: out, stderr: err }) && out
                == stdout && err == stderr,
        }),
        Event::Failed(reason) => after == (BootstrapView { stage: Stage::Failed, ..before }) && (
        r matches Err(e) && e == reason),
    }
}

/// Whether `event` answers the action that is under way at `stage`.
pub open spec fn awaits(stage: Stage, event: Event) -> bool {
    match event {
        Event::Issued(_) => stage == Stage::Issuing,
        Event::Loaded { .. } => stage == Stage::Loading,
        Event::Exited { .. } => stage == Stage::MakingTemp || stage == Stage::Uploading || stage
            == Stage::Running,
        Event::Failed(_) => stage == Stage::Issuing || stage == Stage::Loading || stage
            == Stage::MakingTemp || stage == Stage::Uploading || stage == Stage::Running,
    }
}

/// Whether the run may begin: it has not begun yet, and the session is
/// authenticated.
pub open spec fn may_run(b: BootstrapView) -> bool {
    b.stage == Stage::Idle && b.remote.authenticated
}

/// The provisioner after the host's verdict on the operator.
pub open spec fn after_verdict(before: BootstrapView, accepted: bool) -> BootstrapView {
    if before.stage == Stage::Idle {
        BootstrapView {
            remote: RemoteSessionView { authenticated: accepted, ..before.remote },
            stage: if accepted {
                Stage::Idle
            } else {
                Stage::Failed
            },
            ..before
        }
    } else {
        before
    }
}

/// The provisioner after the authority's certificate and the configuration
/// have been read: it holds the rendered script and waits for the file.
pub open spec fn after_loaded(
    before: BootstrapView,
    auth_cert: Seq<char>,
    auth_host: Seq<char>,
    auth_port: u32,
) -> BootstrapView {
    BootstrapView {
        stage: Stage::MakingTemp,
        script: render_script_spec(
            before.agent_cert,
            auth_cert,
            auth_host,
            decimal_spec(auth_port as nat),
            before.preinstall,
            before.postinstall,
            sudo_spec(before.remote.is_root),
        ),
        ..before
    }
}

/// The provisioner after a command has ended with `status`, having
/// written `stdout`.
pub open spec fn after_exit(before: BootstrapView, stdout: Seq<char>, status: int) -> BootstrapView {
    if status != 0 {
        BootstrapView { stage: Stage::Failed, ..before }
    } else if before.stage == Stage::MakingTemp {
        BootstrapView { stage: Stage::Uploading, path: stdout, ..before }
    } else if before.stage == Stage::Uploading {
        BootstrapView { stage: Stage::Running, ..before }
    } else {
        BootstrapView { stage: Stage::Done, ..before }
    }
}

/// What follows a command that has ended with `status`, having written
/// `stdout`: nothing after a failure; else the upload, then the run of the
/// file under the path as the host wrote it, then the end.
pub open spec fn next_command(before: BootstrapView, stdout: Seq<char>, status: int) -> Option<
    ActionView,
> {
    if status != 0 {
        None
    } else if before.stage == Stage::MakingTemp {
        Some(ActionView::Exec(upload_command_spec(stdout, before.script)))
    } else if before.stage == Stage::Uploading {
        Some(ActionView::Exec(before.path))
    } else {
        Some(ActionView::Finish)
    }
}

} // verus!
