//! Payloads: the units of work that a project hands to its hosts.

use vstd::prelude::*;
use vstd::string::StringExecFns;
use crate::language::Language;

verus! {

/// Directory, below the project's, that holds its payloads.
pub const PAYLOADS_DIR: &'static str = "payloads";

/// Name of the file, in a payload's directory, that holds its
/// configuration.
pub const PAYLOAD_CONFIGNAME: &'static str = "payload.json";

/// Finds and makes payloads.
pub struct Payload;

/// Author that is written into the configuration of a new payload, to be
/// replaced by hand.
pub const DEFAULT_AUTHOR: &'static str = "me";

/// A payload's configuration.
#[derive(Debug)]
pub struct PayloadConfig {
    /// Who wrote the payload.
    pub author: String,
    /// Address of the payload's repository.
    pub repository: String,
    /// The language the payload is written in.
    pub language: Language,
    /// Names of the payloads that this one needs, where it needs any.
    pub dependencies: Option<Vec<String>>,
}

/// Why a payload could not be made.
#[derive(Debug)]
pub enum PayloadError {
    /// The version control tool failed; holds what it wrote.
    CreateFailed(String),
    /// The payload's path has no last part that names it.
    InvalidPath,
    /// There is something at the payload's path already.
    PayloadExists,
}

/// What the error says, for the operator.
pub open spec fn payload_error_message(e: PayloadError) -> Seq<char> {
    match e {
        PayloadError::CreateFailed(s) => "Could not create payload: "@ + s@,
        PayloadError::InvalidPath => "Invalid path to payload"@,
        PayloadError::PayloadExists => "Payload already exists"@,
    }
}

/// The kind of error, without its detail.
pub open spec fn payload_error_description(e: PayloadError) -> Seq<char> {
    match e {
        PayloadError::CreateFailed(_) => "Could not create payload"@,
        PayloadError::InvalidPath => "Invalid path to payload"@,
        PayloadError::PayloadExists => "Payload already exists"@,
    }
}

/// Address of the repository proposed for a new payload called `dirname`.
pub open spec fn repository_spec(dirname: Seq<char>) -> Seq<char> {
    "https://github.com/<ORG>/"@ + dirname + ".git"@
}

impl Payload {
    /// The configuration of a new payload called `dirname` in `language`:
    /// the placeholder author, the proposed repository, no dependencies.
    pub fn create(dirname: &str, language: Language) -> (conf: PayloadConfig)
        ensures
            conf.author@ == DEFAULT_AUTHOR@,
            conf.repository@ == repository_spec(dirname@),
            conf.language == language,
            conf.dependencies is None,
    {
        PayloadConfig {
            author: DEFAULT_AUTHOR.to_owned(),
            repository: Payload::repository(dirname),
            language,
            dependencies: None,
        }
    }

    /// Address of the repository proposed for a new payload called
    /// `dirname`. The organisation is left for the author to fill in.
    pub fn repository(dirname: &str) -> (out: String)
        ensures
            out@ == repository_spec(dirname@),
    {
        let mut out = "https://github.com/<ORG>/".to_owned();
        out.append(dirname);
        out.append(".git");
        out
    }
}

impl PayloadError {
    /// What the error says, for the operator.
    pub fn message(&self) -> (out: String)
        ensures
            out@ == payload_error_message(*self),
    {
        match self {
            PayloadError::CreateFailed(s) => "Could not create payload: ".to_owned().concat(
                s.as_str(),
            ),
            PayloadError::InvalidPath => "Invalid path to payload".to_owned(),
            PayloadError::PayloadExists => "Payload already exists".to_owned(),
        }
    }

    /// The kind of error, without its detail.
    pub fn description(&self) -> (out: &'static str)
        ensures
            out@ == payload_error_description(*self),
    {
        match self {
            PayloadError::CreateFailed(_) => "Could not create payload",
            PayloadError::InvalidPath => "Invalid path to payload",
            PayloadError::PayloadExists => "Payload already exists",
        }
    }
}

} // verus!
