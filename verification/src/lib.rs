//! Generates a NixOS flake configuration from a Balsa install plan.
pub mod cli;
pub mod disko;
pub mod generate;
pub mod laws;
pub mod plan;
pub mod text;

pub use generate::generate;
pub use plan::BalsaInstallPlan;

use vstd::prelude::*;
use vstd::string::*;
use crate::text::views;

verus! {

/// The files that make up a generated system, keyed by name relative to the output directory.
/// `generate` lists the names distinct and in ascending order (`well_formed`).
///
/// The files are a `Vec` of (name, body) pairs rather than a `BTreeMap`: vstd orders no `String`
/// keys, so not even the size of such a map after one insert could be proved. The order and
/// uniqueness a `BTreeMap` would keep are stated by `well_formed` instead; the field is public,
/// which rules out a type invariant, so functions that rely on it require it.
#[derive(Debug, Clone)]
pub struct GeneratedConfig {
    pub files: Vec<(String, String)>,
}

/// The names of `files`, in order.
pub open spec fn file_names(files: Seq<(String, String)>) -> Seq<Seq<char>> {
    files.map_values(|f: (String, String)| f.0@)
}

/// `a` comes before `b` in the order of their characters' code points (which is the order of
/// their UTF-8 bytes, the order `String` sorts by).
pub open spec fn chars_lt(a: Seq<char>, b: Seq<char>) -> bool
    decreases a.len(),
{
    if a.len() == 0 {
        b.len() > 0
    } else if b.len() == 0 {
        false
    } else if a[0] != b[0] {
        (a[0] as u32) < (b[0] as u32)
    } else {
        chars_lt(a.drop_first(), b.drop_first())
    }
}

/// Names in strictly ascending order, hence distinct.
pub open spec fn names_ascending(names: Seq<Seq<char>>) -> bool {
    forall|i: int, j: int| 0 <= i < j < names.len() ==> chars_lt(#[trigger] names[i], #[trigger] names[j])
}

proof fn lemma_chars_lt_irreflexive(a: Seq<char>)
    ensures
        !chars_lt(a, a),
    decreases a.len(),
{
    if a.len() > 0 {
        lemma_chars_lt_irreflexive(a.drop_first());
    }
}

/// The body stored under `name`, if any.
pub open spec fn file_body(files: Seq<(String, String)>, name: Seq<char>) -> Option<Seq<char>> {
    if exists|i: int| 0 <= i < files.len() && (#[trigger] files[i]).0@ == name {
        let i = choose|i: int| 0 <= i < files.len() && (#[trigger] files[i]).0@ == name;
        Some(files[i].1@)
    } else {
        None
    }
}

impl GeneratedConfig {
    /// The file names are distinct and listed in ascending order.
    pub open spec fn well_formed(&self) -> bool {
        names_ascending(file_names(self.files@))
    }

    /// The body of the file called `name`.
    pub fn get(&self, name: &str) -> (r: Option<&String>)
        requires
            self.well_formed(),
        ensures
            r is Some <==> file_body(self.files@, name@) is Some,
            r matches Some(b) ==> b@ == file_body(self.files@, name@)->0,
    {
        proof {
            assert forall|a: int, b: int| 0 <= a < file_names(self.files@).len() && 0 <= b < file_names(self.files@).len()
                && a != b implies file_names(self.files@)[a] != file_names(self.files@)[b] by {
                if a < b {
                    assert(chars_lt(file_names(self.files@)[a], file_names(self.files@)[b]));
                    if file_names(self.files@)[a] == file_names(self.files@)[b] {
                        lemma_chars_lt_irreflexive(file_names(self.files@)[a]);
                    }
                } else {
                    assert(chars_lt(file_names(self.files@)[b], file_names(self.files@)[a]));
                    if file_names(self.files@)[a] == file_names(self.files@)[b] {
                        lemma_chars_lt_irreflexive(file_names(self.files@)[a]);
                    }
                }
            }
        }
        let mut i: usize = 0;
        while i < self.files.len()
            invariant
                i <= self.files.len(),
                file_names(self.files@).no_duplicates(),
                forall|j: int| 0 <= j < i ==> (#[trigger] self.files@[j]).0@ != name@,
            decreases self.files.len() - i,
        {
            if string_eq(self.files[i].0.as_str(), name) {
                proof {
                    assert(self.files@[i as int].0@ == name@);
                    let k = choose|k: int| 0 <= k < self.files@.len() && (#[trigger] self.files@[k]).0@ == name@;
                    assert(file_names(self.files@)[k] == self.files@[k].0@);
                    assert(file_names(self.files@)[i as int] == self.files@[i as int].0@);
                    assert(file_names(self.files@).len() == self.files@.len());
                    if k != i {
                        assert(file_names(self.files@)[k] != file_names(self.files@)[i as int]);
                    }
                }
                return Some(&self.files[i].1);
            }
            i = i + 1;
        }
        None
    }
}

/// Whether two strings hold the same text.
fn string_eq(a: &str, b: &str) -> (r: bool)
    ensures
        r == (a@ == b@),
{
    broadcast use vstd::string::group_string_axioms;
    let n = a.unicode_len();
    if n != b.unicode_len() {
        return false;
    }
    let mut i: usize = 0;
    while i < n
        invariant
            n == a@.len(),
            n == b@.len(),
            i <= n,
            forall|j: int| 0 <= j < i ==> a@[j] == b@[j],
        decreases n - i,
    {
        if a.get_char(i) != b.get_char(i) {
            return false;
        }
        i = i + 1;
    }
    assert(a@ =~= b@);
    true
}

#[derive(Debug, Clone)]
pub struct GenerationResult {
    pub config: GeneratedConfig,
    /// Non-fatal notes for a UI, e.g. a CachyOS kernel that will miss the cache
    pub warnings: Vec<String>,
}

/// What can stop generation. Outside errors are kept as the text they display.
#[derive(Debug)]
pub enum Error {
    /// The plan's problems, one message each
    Validation(Vec<String>),
    /// A template failed to load or render
    Template(String),
    /// The plan file could not be parsed
    Plan(String),
    /// Reading or writing files failed
    Io(String),
}

/// The text `Error` displays.
pub open spec fn error_message(e: Error) -> Seq<char> {
    match e {
        Error::Validation(errs) => "invalid install plan:"@ + bullet_list(views(errs@)),
        Error::Template(m) => "template error: "@ + m@,
        Error::Plan(m) => "could not parse plan: "@ + m@,
        Error::Io(m) => "io error: "@ + m@,
    }
}

/// Each message on a line of its own, as `\n  - message`.
pub open spec fn bullet_list(msgs: Seq<Seq<char>>) -> Seq<char>
    decreases msgs.len(),
{
    if msgs.len() == 0 {
        Seq::empty()
    } else {
        bullet_list(msgs.drop_last()) + "\n  - "@ + msgs.last()
    }
}

impl Error {
    /// The text shown to a user (what the error displays).
    pub fn message(&self) -> (r: String)
        ensures
            r@ == error_message(*self),
    {
        match self {
            Error::Validation(errs) => {
                let mut out = String::from_str("invalid install plan:");
                let mut i: usize = 0;
                while i < errs.len()
                    invariant
                        i <= errs.len(),
                        out@ == "invalid install plan:"@ + bullet_list(views(errs@).take(i as int)),
                    decreases errs.len() - i,
                {
                    out.append("\n  - ");
                    out.append(errs[i].as_str());
                    assert(views(errs@).take(i + 1).drop_last() =~= views(errs@).take(i as int));
                    i = i + 1;
                }
                assert(views(errs@).take(errs.len() as int) =~= views(errs@));
                out
            },
            Error::Template(m) => {
                let mut out = String::from_str("template error: ");
                out.append(m.as_str());
                out
            },
            Error::Plan(m) => {
                let mut out = String::from_str("could not parse plan: ");
                out.append(m.as_str());
                out
            },
            Error::Io(m) => {
                let mut out = String::from_str("io error: ");
                out.append(m.as_str());
                out
            },
        }
    }
}

} // verus!
