//! The configuration that names a project's language and the artifact it
//! builds.

use vstd::prelude::*;
use vstd::string::StringExecFns;

verus! {

/// What a project is written in and what it builds.
#[derive(Debug)]
pub struct ProjectConf {
    /// Name of the language.
    pub language: String,
    /// Path of the artifact that a build leaves.
    pub artifact: String,
}

/// Why a configuration could not be read or written.
#[derive(Debug)]
pub enum ConfigError {
    /// The file could not be read or written; holds what the system said.
    IoError(String),
}

/// What the error says, for the operator.
pub open spec fn config_error_message(e: ConfigError) -> Seq<char> {
    match e {
        ConfigError::IoError(detail) => "IO error: "@ + detail@,
    }
}

impl ConfigError {
    /// What the error says, for the operator.
    pub fn message(&self) -> (out: String)
        ensures
            out@ == config_error_message(*self),
    {
        match self {
            ConfigError::IoError(detail) => "IO error: ".to_owned().concat(detail.as_str()),
        }
    }
}

impl ProjectConf {
    /// The configuration of a project in `lang` that builds `artifact`.
    pub fn new(lang: &str, artifact: &str) -> (conf: ProjectConf)
        ensures
            conf.language@ == lang@,
            conf.artifact@ == artifact@,
    {
        ProjectConf { language: lang.to_owned(), artifact: artifact.to_owned() }
    }
}

} // verus!
