//! The languages a project can be written in.

use vstd::prelude::*;
use vstd::string::StringExecFns;
use crate::error::Error;
use crate::text::str_eq;
use crate::wire::texts;

verus! {

/// A language in which a project or a payload is written.
#[derive(Clone, Copy, Debug, PartialEq, Eq, Structural)]
pub enum Language {
    C,
    Php,
    Rust,
}

/// Why work on a project's language files failed.
#[derive(Debug)]
pub enum LanguageError {
    /// The build failed; holds what the build tool wrote.
    BuildFailed(String),
    /// The language files could not be created; holds what the tool wrote.
    CreateFailed(String),
    /// No language has this name.
    UnknownLanguage(String),
}

/// The language that goes by `name`, if there is one. Names are matched
/// exactly: `c`, `php`, `rust`.
pub open spec fn language_named(name: Seq<char>) -> Option<Language> {
    if name == "c"@ {
        Some(Language::C)
    } else if name == "php"@ {
        Some(Language::Php)
    } else if name == "rust"@ {
        Some(Language::Rust)
    } else {
        None
    }
}

impl Language {
    /// The name by which the language is chosen.
    pub open spec fn name_spec(self) -> Seq<char> {
        match self {
            Language::C => "c"@,
            Language::Php => "php"@,
            Language::Rust => "rust"@,
        }
    }

    /// Reads a language from its name. An unknown name is handed back in
    /// the error.
    pub fn from_str(lang: &str) -> (r: Result<Language, Error>)
        ensures
            match language_named(lang@) {
                Some(l) => r matches Ok(found) && found == l,
                None => r matches Err(Error::Language(LanguageError::UnknownLanguage(n))) && n@
                    == lang@,
            },
    {
        if str_eq(lang, "c") {
            Ok(Language::C)
        } else if str_eq(lang, "php") {
            Ok(Language::Php)
        } else if str_eq(lang, "rust") {
            Ok(Language::Rust)
        } else {
            Err(Error::Language(LanguageError::UnknownLanguage(lang.to_owned())))
        }
    }

    /// The name by which the language is chosen.
    pub fn name(self) -> (r: &'static str)
        ensures
            r@ == self.name_spec(),
    {
        match self {
            Language::C => "c",
            Language::Php => "php",
            Language::Rust => "rust",
        }
    }
}

/// What the error says, for the operator.
pub open spec fn language_error_message(e: LanguageError) -> Seq<char> {
    match e {
        LanguageError::BuildFailed(s) => "Could not build project: "@ + s@,
        LanguageError::CreateFailed(s) => "Could not create language files for project: "@ + s@,
        LanguageError::UnknownLanguage(s) => "Unknown language: "@ + s@,
    }
}

/// The kind of error, without its detail.
pub open spec fn language_error_description(e: LanguageError) -> Seq<char> {
    match e {
        LanguageError::BuildFailed(_) => "Could not build project"@,
        LanguageError::CreateFailed(_) => "Could not create language files for project"@,
        LanguageError::UnknownLanguage(_) => "Unknown language"@,
    }
}

impl LanguageError {
    /// What the error says, for the operator.
    pub fn message(&self) -> (out: String)
        ensures
            out@ == language_error_message(*self),
    {
        match self {
            LanguageError::BuildFailed(s) => "Could not build project: ".to_owned().concat(
                s.as_str(),
            ),
            LanguageError::CreateFailed(s) => "Could not create language files for project: "
                .to_owned().concat(s.as_str()),
            LanguageError::UnknownLanguage(s) => "Unknown language: ".to_owned().concat(s.as_str()),
        }
    }

    /// The kind of error, without its detail.
    pub fn description(&self) -> (out: &'static str)
        ensures
            out@ == language_error_description(*self),
    {
        match self {
            LanguageError::BuildFailed(_) => "Could not build project",
            LanguageError::CreateFailed(_) => "Could not create language files for project",
            LanguageError::UnknownLanguage(_) => "Unknown language",
        }
    }
}

/// A program to start, with its arguments.
#[derive(Debug)]
pub struct Invocation {
    pub program: String,
    pub args: Vec<String>,
}

/// An invocation as mathematical values.
pub struct InvocationView {
    pub program: Seq<char>,
    pub args: Seq<Seq<char>>,
}

impl View for Invocation {
    type V = InvocationView;

    open spec fn view(&self) -> InvocationView {
        InvocationView { program: self.program@, args: texts(self.args@) }
    }
}

/// The tools of a project in C.
pub struct CProject;

/// The tools of a project in PHP.
pub struct PhpProject;

/// The tools of a project in Rust.
pub struct RustProject;

fn owned(words: &Vec<&str>) -> (out: Vec<String>)
    ensures
        out.len() == words.len(),
        forall|i: int| 0 <= i < out.len() ==> (#[trigger] out@[i])@ == words@[i]@,
{
    let mut out: Vec<String> = Vec::new();
    let mut i: usize = 0;
    while i < words.len()
        invariant
            i <= words.len(),
            out.len() == i,
            forall|k: int| 0 <= k < i ==> (#[trigger] out@[k])@ == words@[k]@,
        decreases words.len() - i,
    {
        out.push(words[i].to_owned());
        i += 1;
    }
    out
}

/// The texts held by a vector of string slices.
pub open spec fn words(v: Seq<&str>) -> Seq<Seq<char>> {
    Seq::new(v.len(), |i: int| v[i]@)
}

impl CProject {
    /// How the project is built, where it has a makefile: by `make`.
    pub fn build() -> (tool: Invocation)
        ensures
            tool@ == (InvocationView { program: "make"@, args: Seq::<Seq<char>>::empty() }),
    {
        let tool = Invocation { program: "make".to_owned(), args: Vec::new() };
        assert(texts(tool.args@) =~= Seq::<Seq<char>>::empty());
        tool
    }

    /// How the project is run with `args`: by the program that the build
    /// leaves.
    pub fn run(args: &Vec<&str>) -> (program: Invocation)
        ensures
            program@ == (InvocationView { program: "bootstrap"@, args: words(args@) }),
    {
        let program = Invocation { program: "bootstrap".to_owned(), args: owned(args) };
        assert(texts(program.args@) =~= words(args@));
        program
    }

    /// What a failed build means: an error that holds what the build
    /// tool wrote.
    pub fn build_failed(stderr: String) -> (e: Error)
        ensures
            e matches Error::Language(LanguageError::BuildFailed(detail)) && detail == stderr,
    {
        Error::Language(LanguageError::BuildFailed(stderr))
    }
}

impl PhpProject {
    /// How the project is run with `args`: by the interpreter, on the
    /// project's main file.
    pub fn run(args: &Vec<&str>) -> (program: Invocation)
        ensures
            program@ == (InvocationView {
                program: "php"@,
                args: seq!["src/main.php"@] + words(args@),
            }),
    {
        let mut all: Vec<String> = Vec::new();
        all.push("src/main.php".to_owned());
        let mut rest = owned(args);
        let ghost given = rest@;
        all.append(&mut rest);
        let program = Invocation { program: "php".to_owned(), args: all };
        assert(texts(program.args@) =~= seq!["src/main.php"@] + words(args@)) by {
            assert forall|i: int| 0 <= i < program.args.len() implies texts(program.args@)[i] == (
            seq!["src/main.php"@] + words(args@))[i] by {
                if i > 0 {
                    assert(program.args@[i] == given[i - 1]);
                }
            }
        }
        program
    }
}

impl RustProject {
    /// How the project is built: by `cargo`, for release.
    pub fn build() -> (tool: Invocation)
        ensures
            tool@ == (InvocationView { program: "cargo"@, args: seq!["build"@, "--release"@] }),
    {
        let mut args: Vec<String> = Vec::new();
        args.push("build".to_owned());
        args.push("--release".to_owned());
        let tool = Invocation { program: "cargo".to_owned(), args };
        assert(texts(tool.args@) =~= seq!["build"@, "--release"@]);
        tool
    }

    /// How the project in the directory called `dirname` is run with
    /// `args`: by the program that the build leaves under that name.
    pub fn run(dirname: &str, args: &Vec<&str>) -> (program: Invocation)
        ensures
            program@ == (InvocationView {
                program: "target/release/"@ + dirname@,
                args: words(args@),
            }),
    {
        let path = "target/release/".to_owned().concat(dirname);
        let program = Invocation { program: path, args: owned(args) };
        assert(texts(program.args@) =~= words(args@));
        program
    }

    /// What a failure to make the project's files means: an error that
    /// holds what the tool wrote.
    pub fn create_failed(stderr: String) -> (e: Error)
        ensures
            e matches Error::Language(LanguageError::CreateFailed(detail)) && detail == stderr,
    {
        Error::Language(LanguageError::CreateFailed(stderr))
    }
}

} // verus!
