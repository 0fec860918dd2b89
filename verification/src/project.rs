//! A project: the directory from which hosts are managed, and its
//! configuration.

use vstd::prelude::*;
use vstd::string::StringExecFns;
use vstd::utf8::encode_utf8;
use vstd::utf8::valid_utf8;
use crate::language::Language;
use crate::text::bytes_eq;
use crate::text::decode_text;
use crate::wire::texts;

verus! {

/// Name of the file, in the project's directory, that holds its
/// configuration.
pub const CONFIGNAME: &'static str = "project.json";

/// Name of the file that holds the authority's public certificate.
pub const AUTH_CERT_NAME: &'static str = "auth.crt";

/// Name of the file that holds the operator's own certificate.
pub const USER_CERT_NAME: &'static str = "user.crt";

/// Host name of the authority in a new project, to be replaced by hand.
pub const DEFAULT_AUTH_SERVER: &'static str = "auth.example.com";

/// Port of the authority's request service in a new project.
pub const DEFAULT_AUTH_API_PORT: u32 = 7101;

/// Port of the authority's update service in a new project.
pub const DEFAULT_AUTH_UPDATE_PORT: u32 = 7102;

/// A project's configuration.
#[derive(Debug)]
pub struct ProjectConfig {
    /// The language the project is written in.
    pub language: Language,
    /// Host name of the certificate authority.
    pub auth_server: String,
    /// Port on which the authority answers requests.
    pub auth_api_port: u32,
    /// Port on which the authority publishes updates.
    pub auth_update_port: u32,
    /// Host and port of the build server, where the project has one.
    pub build_server: Option<String>,
}

/// A project: its name and its configuration.
#[derive(Debug)]
pub struct Project {
    /// The last part of the path of the project's directory.
    pub name: String,
    /// What its configuration file holds.
    pub conf: ProjectConfig,
}

/// Why a project could not be made or read.
#[derive(Debug)]
pub enum ProjectError {
    /// The version control tool failed; holds what it wrote.
    CreateFailed(String),
    /// The project's path has no last part that names it.
    InvalidPath,
    /// There is something at the project's path already.
    ProjectExists,
}

/// Where a project's program is to run.
#[derive(Debug)]
pub enum RunTarget {
    /// On the build server with this address.
    BuildServer(String),
    /// On this machine, by the tools of this language.
    Local(Language),
}

/// What the operator is told once a project has been made at `path`.
pub open spec fn reminder_spec(path: Seq<char>) -> Seq<char> {
    "Remember to copy your user certificate to "@ + path + "/user.crt.\n"@
        + "If you do not have a user certificate, obtain one from your administrator."@
}

/// What the error says, for the operator.
pub open spec fn project_error_message(e: ProjectError) -> Seq<char> {
    match e {
        ProjectError::CreateFailed(s) => "Could not create project: "@ + s@,
        ProjectError::InvalidPath => "Invalid path to project"@,
        ProjectError::ProjectExists => "Project already exists"@,
    }
}

/// The kind of error, without its detail.
pub open spec fn project_error_description(e: ProjectError) -> Seq<char> {
    match e {
        ProjectError::CreateFailed(_) => "Could not create project"@,
        ProjectError::InvalidPath => "Invalid path to project"@,
        ProjectError::ProjectExists => "Project already exists"@,
    }
}

/// What the operator is told once a project has been made at `path`:
/// where the user certificate goes.
pub fn reminder(path: &str) -> (out: String)
    ensures
        out@ == reminder_spec(path@),
{
    let mut out = "Remember to copy your user certificate to ".to_owned();
    out.append(path);
    out.append("/user.crt.\n");
    out.append("If you do not have a user certificate, obtain one from your administrator.");
    out
}

impl ProjectConfig {
    /// The configuration of a new project in `language`: the placeholder
    /// authority on the usual ports, and no build server.
    pub fn new(language: Language) -> (conf: ProjectConfig)
        ensures
            conf.language == language,
            conf.auth_server@ == DEFAULT_AUTH_SERVER@,
            conf.auth_api_port == DEFAULT_AUTH_API_PORT,
            conf.auth_update_port == DEFAULT_AUTH_UPDATE_PORT,
            conf.build_server is None,
    {
        ProjectConfig {
            language,
            auth_server: DEFAULT_AUTH_SERVER.to_owned(),
            auth_api_port: DEFAULT_AUTH_API_PORT,
            auth_update_port: DEFAULT_AUTH_UPDATE_PORT,
            build_server: None,
        }
    }
}

impl Project {
    /// The project called `name` whose configuration was read as `conf`.
    pub fn load(name: &str, conf: ProjectConfig) -> (project: Project)
        ensures
            project.name@ == name@,
            project.conf == conf,
    {
        Project { name: name.to_owned(), conf }
    }

    /// A new project called `name` in `language`, with the configuration
    /// that [`ProjectConfig::new`] gives.
    pub fn create(name: &str, language: Language) -> (project: Project)
        ensures
            project.name@ == name@,
            project.conf.language == language,
            project.conf.auth_server@ == DEFAULT_AUTH_SERVER@,
            project.conf.auth_api_port == DEFAULT_AUTH_API_PORT,
            project.conf.auth_update_port == DEFAULT_AUTH_UPDATE_PORT,
            project.conf.build_server is None,
    {
        Project { name: name.to_owned(), conf: ProjectConfig::new(language) }
    }

    /// Where the project runs: on its build server if it has one and the
    /// operator did not ask for a local run, else here.
    pub fn run(&self, local: bool) -> (target: RunTarget)
        ensures
            match self.conf.build_server {
                Some(address) if !local => target matches RunTarget::BuildServer(a) && a@
                    == address@,
                _ => target matches RunTarget::Local(l) && l == self.conf.language,
            },
    {
        match &self.conf.build_server {
            Some(address) if !local => RunTarget::BuildServer(address.clone()),
            _ => RunTarget::Local(self.conf.language),
        }
    }
}

impl ProjectError {
    /// What the error says, for the operator.
    pub fn message(&self) -> (out: String)
        ensures
            out@ == project_error_message(*self),
    {
        match self {
            ProjectError::CreateFailed(s) => "Could not create project: ".to_owned().concat(
                s.as_str(),
            ),
            ProjectError::InvalidPath => "Invalid path to project".to_owned(),
            ProjectError::ProjectExists => "Project already exists".to_owned(),
        }
    }

    /// The kind of error, without its detail.
    pub fn description(&self) -> (out: &'static str)
        ensures
            out@ == project_error_description(*self),
    {
        match self {
            ProjectError::CreateFailed(_) => "Could not create project",
            ProjectError::InvalidPath => "Invalid path to project",
            ProjectError::ProjectExists => "Project already exists",
        }
    }
}

/// Verb that asks the build server to run the project.
pub const VERB_RUN: &'static str = "RUN";

/// Frame by which the build server ends a run that went well.
pub const RUN_OK: &'static str = "OK";

/// Frame by which the build server announces that the run has failed and
/// that its last words follow.
pub const RUN_ERR: &'static str = "ERR";

/// Time, in milliseconds, that sending to the build server may take.
pub const BUILD_SEND_TIMEOUT_MS: i32 = 1000;

/// What follows from one frame of the build server's report.
#[derive(Clone, Copy, Debug, PartialEq, Eq, Structural)]
pub enum RelayAction {
    /// Go on reading.
    Wait,
    /// Show the frame and go on reading.
    Print,
    /// Show the frame; the report is over.
    PrintAndStop,
    /// The report is over.
    Stop,
}

/// The reading of a build server's report, frame by frame.
#[derive(Clone, Copy, Debug, PartialEq, Eq, Structural)]
pub struct Relay {
    /// Whether the server has announced a failure.
    pub failed: bool,
}

/// The request to run the project with `args` on the build server.
pub open spec fn run_request_spec(args: Seq<Seq<char>>) -> Seq<Seq<char>> {
    seq![VERB_RUN@] + args
}

/// What follows from `frame`, given whether a failure was announced.
///
/// `OK` ends the report. `ERR` announces a failure. Any other frame is
/// shown; after a failure was announced, a frame of text is the last.
pub open spec fn relay_action_spec(failed: bool, frame: Seq<u8>) -> RelayAction {
    if frame == encode_utf8(RUN_OK@) {
        RelayAction::Stop
    } else if frame == encode_utf8(RUN_ERR@) {
        RelayAction::Wait
    } else if valid_utf8(frame) && failed {
        RelayAction::PrintAndStop
    } else {
        RelayAction::Print
    }
}

/// Whether a failure is on record after `frame`.
pub open spec fn relay_failed_spec(failed: bool, frame: Seq<u8>) -> bool {
    failed || (frame != encode_utf8(RUN_OK@) && frame == encode_utf8(RUN_ERR@))
}

/// The request to run the project with `args` on the build server.
pub fn run_request(args: &Vec<String>) -> (req: Vec<String>)
    ensures
        texts(req@) == run_request_spec(texts(args@)),
{
    let mut req: Vec<String> = Vec::new();
    req.push(VERB_RUN.to_owned());
    let mut i: usize = 0;
    while i < args.len()
        invariant
            i <= args.len(),
            req.len() == i + 1,
            req@[0]@ == VERB_RUN@,
            forall|k: int| 0 <= k < i ==> (#[trigger] req@[k + 1])@ == args@[k]@,
        decreases args.len() - i,
    {
        req.push(args[i].clone());
        i += 1;
    }
    assert forall|j: int| 0 <= j < req.len() implies texts(req@)[j] == run_request_spec(
        texts(args@),
    )[j] by {
        if j > 0 {
            assert(req@[(j - 1) + 1]@ == args@[j - 1]@);
        }
    }
    assert(texts(req@) =~= run_request_spec(texts(args@)));
    req
}

impl Relay {
    /// The reading of a report of which nothing has come yet.
    pub fn new() -> (relay: Relay)
        ensures
            !relay.failed,
    {
        Relay { failed: false }
    }

    /// Takes the next frame of the report and says what follows from it.
    pub fn receive(&mut self, frame: &[u8]) -> (action: RelayAction)
        ensures
            action == relay_action_spec(old(self).failed, frame@),
            final(self).failed == relay_failed_spec(old(self).failed, frame@),
    {
        if bytes_eq(frame, RUN_OK.as_bytes()) {
            RelayAction::Stop
        } else if bytes_eq(frame, RUN_ERR.as_bytes()) {
            self.failed = true;
            RelayAction::Wait
        } else if self.failed && decode_text(frame).is_some() {
            RelayAction::PrintAndStop
        } else {
            RelayAction::Print
        }
    }

    /// The status with which the run ends: 1 after a failure, else 0.
    pub fn exit_code(&self) -> (code: i32)
        ensures
            code == if self.failed {
                1i32
            } else {
                0i32
            },
    {
        if self.failed {
            1
        } else {
            0
        }
    }
}

} // verus!
