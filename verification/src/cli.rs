//! What the operator asked for on the command line, and what is said back.
//!
//! The command line is parsed elsewhere into [`Args`]. This module reads
//! the one command out of it and words the notices that go with a
//! certificate.

use vstd::prelude::*;
use vstd::string::StringExecFns;
use crate::text::str_eq;
use crate::text::trim;
use crate::text::trim_spec;

verus! {

/// Type of the certificate of a host.
pub const HOST: &'static str = "host";

/// Type of the certificate of a user.
pub const USER: &'static str = "user";

/// The line above a certificate that is shown to be copied.
pub const COPY_BELOW: &'static str =
    "------------------------COPY BELOW THIS LINE-------------------------";

/// The line below a certificate that is shown to be copied.
pub const COPY_ABOVE: &'static str =
    "------------------------COPY ABOVE THIS LINE-------------------------";

/// The words, flags and arguments of the command line, as they were found.
///
/// The password is among them, so the whole is not to be logged.
#[allow(non_snake_case)]
pub struct Args {
    pub cmd_add: bool,
    pub cmd_bootstrap: bool,
    pub cmd_build: bool,
    pub cmd_delete: bool,
    pub cmd_host: bool,
    pub cmd_init: bool,
    pub cmd_list: bool,
    pub cmd_payload: bool,
    pub cmd_project: bool,
    pub cmd_run: bool,
    pub cmd_user: bool,
    pub flag_i: Option<String>,
    pub flag_m: Option<String>,
    pub flag_n: Option<String>,
    pub flag_p: Option<u32>,
    pub flag_P: Option<String>,
    pub flag_s: bool,
    pub flag_silent: bool,
    pub flag_version: bool,
    pub flag_u: Option<String>,
    pub arg_arg: Vec<String>,
    pub arg_hostname: String,
    pub arg_lang: String,
    pub arg_name: String,
    pub arg_names: Option<Vec<String>>,
    pub arg_username: String,
}

/// Whose certificates a command is about.
#[derive(Clone, Copy, Debug, PartialEq, Eq, Structural)]
pub enum Subject {
    Host,
    User,
}

/// The one thing the operator asked for.
pub enum Command {
    /// Show the version.
    Version,
    /// Run the project with these arguments.
    Run { args: Vec<String> },
    /// Make a project called `name` in the language called `lang`.
    ProjectInit { name: String, lang: String },
    /// Make a payload called `name` in the language called `lang`.
    PayloadInit { name: String, lang: String },
    /// Build the payloads with these names, or all of them.
    PayloadBuild { names: Option<Vec<String>> },
    /// Issue a certificate for `name`; if `silent`, save it instead of
    /// showing it.
    Add { subject: Subject, name: String, silent: bool },
    /// Revoke the certificate of `name`; if `silent`, without asking.
    Delete { subject: Subject, name: String, silent: bool },
    /// List the names that hold a certificate.
    List { subject: Subject },
    /// Bring the host `hostname` into the fleet.
    Bootstrap {
        hostname: String,
        port: Option<u32>,
        username: Option<String>,
        password: Option<String>,
        identity_file: Option<String>,
        preinstall: Option<String>,
        postinstall: Option<String>,
    },
    /// Nothing that is known.
    Nothing,
}

/// Which command the words of the command line name.
#[derive(Clone, Copy, Debug, PartialEq, Eq, Structural)]
pub enum Kind {
    Version,
    Run,
    ProjectInit,
    PayloadInit,
    PayloadBuild,
    Add,
    Delete,
    List,
    Bootstrap,
    Nothing,
}

impl Subject {
    /// The type of certificate that the subject holds.
    pub open spec fn cert_type_spec(self) -> Seq<char> {
        match self {
            Subject::Host => HOST@,
            Subject::User => USER@,
        }
    }

    /// The type of certificate that the subject holds.
    pub fn cert_type(self) -> (r: &'static str)
        ensures
            r@ == self.cert_type_spec(),
    {
        match self {
            Subject::Host => HOST,
            Subject::User => USER,
        }
    }
}

/// Which command the words of the command line name.
///
/// The version comes first. Then `run`, then `project init`, then
/// `payload` with `init` before `build`. Then `host` or `user`, with `add`
/// before `delete` before `list` before `bootstrap`, which is for hosts
/// only. Words that fit none of these name nothing.
pub open spec fn kind_spec(args: Args) -> Kind {
    if args.flag_version {
        Kind::Version
    } else if args.cmd_run {
        Kind::Run
    } else if args.cmd_project && args.cmd_init {
        Kind::ProjectInit
    } else if args.cmd_payload {
        if args.cmd_init {
            Kind::PayloadInit
        } else if args.cmd_build {
            Kind::PayloadBuild
        } else {
            Kind::Nothing
        }
    } else if args.cmd_host || args.cmd_user {
        if args.cmd_add {
            Kind::Add
        } else if args.cmd_delete {
            Kind::Delete
        } else if args.cmd_list {
            Kind::List
        } else if args.cmd_bootstrap && args.cmd_host {
            Kind::Bootstrap
        } else {
            Kind::Nothing
        }
    } else {
        Kind::Nothing
    }
}

/// Whose certificates the command line is about: a host's if it says
/// `host`, else a user's.
pub open spec fn subject_spec(args: Args) -> Subject {
    if args.cmd_host {
        Subject::Host
    } else {
        Subject::User
    }
}

/// The name that the command line gives for its subject.
pub open spec fn name_spec(args: Args) -> String {
    if args.cmd_host {
        args.arg_hostname
    } else {
        args.arg_username
    }
}

/// Whether the command line asks for silence, by either flag.
pub open spec fn silent_spec(args: Args) -> bool {
    args.flag_s || args.flag_silent
}

/// The command that the command line names, with what it takes from the
/// flags and arguments.
pub open spec fn command_spec(args: Args) -> Command {
    match kind_spec(args) {
        Kind::Version => Command::Version,
        Kind::Run => Command::Run { args: args.arg_arg },
        Kind::ProjectInit => Command::ProjectInit { name: args.arg_name, lang: args.arg_lang },
        Kind::PayloadInit => Command::PayloadInit { name: args.arg_name, lang: args.arg_lang },
        Kind::PayloadBuild => Command::PayloadBuild { names: args.arg_names },
        Kind::Add => Command::Add {
            subject: subject_spec(args),
            name: name_spec(args),
            silent: silent_spec(args),
        },
        Kind::Delete => Command::Delete {
            subject: subject_spec(args),
            name: name_spec(args),
            silent: silent_spec(args),
        },
        Kind::List => Command::List { subject: subject_spec(args) },
        Kind::Bootstrap => Command::Bootstrap {
            hostname: args.arg_hostname,
            port: args.flag_p,
            username: args.flag_u,
            password: args.flag_P,
            identity_file: args.flag_i,
            preinstall: args.flag_m,
            postinstall: args.flag_n,
        },
        Kind::Nothing => Command::Nothing,
    }
}

/// What an answer to the question before a deletion means: `y` is yes,
/// `n` is no, each with any white space around it; anything else is no
/// answer.
pub open spec fn confirmation_spec(answer: Seq<char>) -> Option<bool> {
    if trim_spec(answer) == "y"@ {
        Some(true)
    } else if trim_spec(answer) == "n"@ {
        Some(false)
    } else {
        None
    }
}

/// What is shown with a new certificate that is not saved.
pub open spec fn distribution_notice_spec(document: Seq<char>) -> Seq<char> {
    "Please distribute this certificate securely.\n\n"@ + COPY_BELOW@ + "\n"@ + document + "\n"@
        + COPY_ABOVE@
}

/// Name of the file in which the certificate of `name` is saved.
pub open spec fn cert_file_name_spec(name: Seq<char>) -> Seq<char> {
    name + ".crt"@
}

/// What is said where no name holds a certificate of type `cert_type`.
pub open spec fn none_found_spec(cert_type: Seq<char>) -> Seq<char> {
    "No "@ + cert_type + "s found"@
}

impl Args {
    /// Which command the words name.
    pub fn kind(&self) -> (kind: Kind)
        ensures
            kind == kind_spec(*self),
    {
        if self.flag_version {
            Kind::Version
        } else if self.cmd_run {
            Kind::Run
        } else if self.cmd_project && self.cmd_init {
            Kind::ProjectInit
        } else if self.cmd_payload {
            if self.cmd_init {
                Kind::PayloadInit
            } else if self.cmd_build {
                Kind::PayloadBuild
            } else {
                Kind::Nothing
            }
        } else if self.cmd_host || self.cmd_user {
            if self.cmd_add {
                Kind::Add
            } else if self.cmd_delete {
                Kind::Delete
            } else if self.cmd_list {
                Kind::List
            } else if self.cmd_bootstrap && self.cmd_host {
                Kind::Bootstrap
            } else {
                Kind::Nothing
            }
        } else {
            Kind::Nothing
        }
    }

    /// Whose certificates the command line is about.
    pub fn subject(&self) -> (subject: Subject)
        ensures
            subject == subject_spec(*self),
    {
        if self.cmd_host {
            Subject::Host
        } else {
            Subject::User
        }
    }

    /// The command that the command line names.
    pub fn command(self) -> (command: Command)
        ensures
            command == command_spec(self),
    {
        let kind = self.kind();
        let subject = self.subject();
        let silent = self.flag_s || self.flag_silent;
        let name = if self.cmd_host {
            self.arg_hostname
        } else {
            self.arg_username
        };
        match kind {
            Kind::Version => Command::Version,
            Kind::Run => Command::Run { args: self.arg_arg },
            Kind::ProjectInit => Command::ProjectInit { name: self.arg_name, lang: self.arg_lang },
            Kind::PayloadInit => Command::PayloadInit { name: self.arg_name, lang: self.arg_lang },
            Kind::PayloadBuild => Command::PayloadBuild { names: self.arg_names },
            Kind::Add => Command::Add { subject, name, silent },
            Kind::Delete => Command::Delete { subject, name, silent },
            Kind::List => Command::List { subject },
            Kind::Bootstrap => Command::Bootstrap {
                hostname: name,
                port: self.flag_p,
                username: self.flag_u,
                password: self.flag_P,
                identity_file: self.flag_i,
                preinstall: self.flag_m,
                postinstall: self.flag_n,
            },
            Kind::Nothing => Command::Nothing,
        }
    }
}

/// Reads an answer to the question before a deletion.
pub fn confirmation(answer: &str) -> (r: Option<bool>)
    ensures
        r == confirmation_spec(answer@),
{
    let word = trim(answer);
    if str_eq(word, "y") {
        Some(true)
    } else if str_eq(word, "n") {
        Some(false)
    } else {
        None
    }
}

/// What is shown with a new certificate that is not saved: a request to
/// hand it on with care, and the secret document between two lines.
pub fn distribution_notice(document: &str) -> (out: String)
    ensures
        out@ == distribution_notice_spec(document@),
{
    let mut out = "Please distribute this certificate securely.\n\n".to_owned();
    out.append(COPY_BELOW);
    out.append("\n");
    out.append(document);
    out.append("\n");
    out.append(COPY_ABOVE);
    out
}

/// Name of the file in which the certificate of `name` is saved.
pub fn cert_file_name(name: &str) -> (out: String)
    ensures
        out@ == cert_file_name_spec(name@),
{
    let mut out = name.to_owned();
    out.append(".crt");
    out
}

/// What is said where no name holds a certificate of type `cert_type`.
pub fn none_found(cert_type: &str) -> (out: String)
    ensures
        out@ == none_found_spec(cert_type@),
{
    let mut out = "No ".to_owned();
    out.append(cert_type);
    out.append("s found");
    out
}

} // verus!
