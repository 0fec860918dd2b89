//! What it takes to run a project in each language: the artifact that
//! holds the program and the runtime it is handed to, if any.

use vstd::prelude::*;
use crate::text::str_eq;

verus! {

/// How a project in one language is run.
#[derive(Clone, Copy, Debug)]
pub struct Language {
    /// The name by which the language is chosen.
    pub name: &'static str,
    /// Path of the program, below the project's directory.
    pub artifact: &'static str,
    /// The interpreter that runs the artifact, where it is not run directly.
    pub runtime: Option<&'static str>,
}

/// A language's entry as mathematical values.
pub struct LanguageView {
    pub name: Seq<char>,
    pub artifact: Seq<char>,
    pub runtime: Option<Seq<char>>,
}

impl View for Language {
    type V = LanguageView;

    open spec fn view(&self) -> LanguageView {
        LanguageView {
            name: self.name@,
            artifact: self.artifact@,
            runtime: match self.runtime {
                Some(r) => Some(r@),
                None => None,
            },
        }
    }
}

/// The languages that can be run, in the order in which they are tried.
pub open spec fn valid_languages() -> Seq<LanguageView> {
    seq![
        LanguageView { name: "rust"@, artifact: "target/debug/intecture"@, runtime: None },
        LanguageView { name: "c"@, artifact: "intecture"@, runtime: None },
        LanguageView { name: "php"@, artifact: "bootstrap.php"@, runtime: Some("php"@) },
    ]
}

/// The first entry of `table` that goes by `name`.
pub open spec fn find_in(table: Seq<LanguageView>, name: Seq<char>) -> Option<LanguageView>
    decreases table.len(),
{
    if table.len() == 0 {
        None
    } else if table[0].name == name {
        Some(table[0])
    } else {
        find_in(table.skip(1), name)
    }
}

/// The entries of a table as mathematical values.
pub open spec fn views(table: Seq<Language>) -> Seq<LanguageView> {
    Seq::new(table.len(), |i: int| table[i]@)
}

/// The languages that can be run, in the order in which they are tried.
pub fn languages() -> (table: Vec<Language>)
    ensures
        views(table@) == valid_languages(),
{
    let mut table: Vec<Language> = Vec::new();
    table.push(Language { name: "rust", artifact: "target/debug/intecture", runtime: None });
    table.push(Language { name: "c", artifact: "intecture", runtime: None });
    table.push(Language { name: "php", artifact: "bootstrap.php", runtime: Some("php") });
    assert(views(table@) =~= valid_languages());
    table
}

impl Language {
    /// The entry for the language called `name`, if it can be run.
    pub fn find(name: &str) -> (r: Option<Language>)
        ensures
            match find_in(valid_languages(), name@) {
                Some(entry) => r matches Some(l) && l@ == entry,
                None => r is None,
            },
    {
        let table = languages();
        let mut i: usize = 0;
        proof {
            assert(valid_languages().skip(0) =~= valid_languages());
        }
        while i < table.len()
            invariant
                i <= table.len(),
                views(table@) == valid_languages(),
                find_in(valid_languages(), name@) == find_in(
                    valid_languages().skip(i as int),
                    name@,
                ),
            decreases table.len() - i,
        {
            proof {
                assert(valid_languages().skip(i as int)[0] == views(table@)[i as int]);
                assert(valid_languages().skip(i as int).skip(1) =~= valid_languages().skip(
                    i + 1,
                ));
            }
            if str_eq(table[i].name, name) {
                return Some(table[i]);
            }
            i += 1;
        }
        None
    }
}

} // verus!
