//! Data validators used by form fields.
//!
//! A validator turns a raw string into either acceptance (`None`) or a
//! rejection message (`Some`).  A field owns an ordered list of validators;
//! the first failing one short-circuits with its message.

use vstd::prelude::*;
use vstd::string::StringExecFns;

use crate::utils::{path_exists, path_is_dir, path_is_file};

verus! {

/// What `regex::Regex::is_match` returns for a pattern source and a text.
pub uninterp spec fn regex_match(pattern: Seq<char>, text: Seq<char>) -> bool;

/// Whether `regex::Regex::new` accepts a pattern source; its answer is a
/// pure function of the source text alone.
pub uninterp spec fn regex_compiles(source: Seq<char>) -> bool;

/// Message reported by [`Required`].
pub open spec fn required_msg() -> Seq<char> {
    "Field is required"@
}

/// Message reported by [`PathFree`].
pub open spec fn path_used_msg() -> Seq<char> {
    "Path is already used"@
}

/// Message reported by [`DirExists`] for an entry of the wrong kind.
pub open spec fn not_a_dir_msg() -> Seq<char> {
    "It's not a dir"@
}

/// Message reported by [`DirExists`] for a missing entry.
pub open spec fn no_dir_msg() -> Seq<char> {
    "Dir doesn't exist"@
}

/// Message reported by [`FileExists`] for an entry of the wrong kind.
pub open spec fn not_a_file_msg() -> Seq<char> {
    "It's not a file"@
}

/// Message reported by [`FileExists`] for a missing entry.
pub open spec fn no_file_msg() -> Seq<char> {
    "File doesn't exist"@
}

/// Message reported by [`OneOf`].
pub open spec fn one_of_msg() -> Seq<char> {
    "Value must be one of options"@
}

/// Message reported by [`Pattern`] for a non-matching text.
pub open spec fn regex_msg(source: Seq<char>, data: Seq<char>) -> Seq<char> {
    "Value \""@ + data + "\" does not match \""@ + source + "\" regular exp."@
}

/// The path-free validator's answer for a given existence answer.
pub open spec fn path_free_outcome(exists: bool) -> Option<Seq<char>> {
    if exists {
        Some(path_used_msg())
    } else {
        None
    }
}

/// Decides the path-free validator's answer from the filesystem's
/// existence answer: a used path is rejected, a free one accepted.
pub fn path_free_decision(exists: bool) -> (r: Option<String>)
    ensures
        r.deep_view() == path_free_outcome(exists),
{
    if exists {
        Some("Path is already used".to_owned())
    } else {
        None
    }
}

/// The directory validator's answer for given existence and kind answers.
pub open spec fn dir_exists_outcome(exists: bool, is_dir: bool) -> Option<Seq<char>> {
    if !exists {
        Some(no_dir_msg())
    } else if is_dir {
        None
    } else {
        Some(not_a_dir_msg())
    }
}

/// Decides the directory validator's answer from the filesystem's
/// answers: a missing entry and an entry of the wrong kind are rejected
/// with distinct messages, a directory is accepted.
pub fn dir_exists_decision(exists: bool, is_dir: bool) -> (r: Option<String>)
    ensures
        r.deep_view() == dir_exists_outcome(exists, is_dir),
{
    if !exists {
        Some("Dir doesn't exist".to_owned())
    } else if is_dir {
        None
    } else {
        Some("It's not a dir".to_owned())
    }
}

/// The file validator's answer for given existence and kind answers.
pub open spec fn file_exists_outcome(exists: bool, is_file: bool) -> Option<Seq<char>> {
    if !exists {
        Some(no_file_msg())
    } else if is_file {
        None
    } else {
        Some(not_a_file_msg())
    }
}

/// Decides the file validator's answer from the filesystem's answers: a
/// missing entry and an entry of the wrong kind are rejected with
/// distinct messages, a regular file is accepted.
pub fn file_exists_decision(exists: bool, is_file: bool) -> (r: Option<String>)
    ensures
        r.deep_view() == file_exists_outcome(exists, is_file),
{
    if !exists {
        Some("File doesn't exist".to_owned())
    } else if is_file {
        None
    } else {
        Some("It's not a file".to_owned())
    }
}

/// Adds behaviour of validation.
///
/// `validate` returns `None` when the data is accepted and `Some(message)`
/// when it is rejected.  Every result satisfies the relation `post`; when
/// `exact()` holds the result is moreover the pure function `outcome` of the
/// input, so two validations of the same data agree.
pub trait Validator: Sized {
    /// Relation satisfied by every result of `validate`.
    spec fn post(&self, data: Seq<char>, r: Option<Seq<char>>) -> bool;

    /// Whether the result is a pure function of the input data.
    spec fn exact(&self) -> bool;

    /// The result of `validate`, meaningful when `exact()` holds.
    spec fn outcome(&self, data: Seq<char>) -> Option<Seq<char>>;

    /// Validates data returning `None` (when accepted) or a message.
    fn validate(&self, data: &str) -> (r: Option<String>)
        ensures
            self.post(data@, r.deep_view()),
            self.exact() ==> r.deep_view() == self.outcome(data@),
    ;
}

/// Ensures data is included: fails exactly on the empty string.
#[derive(Clone, Debug)]
pub struct Required;

impl Validator for Required {
    open spec fn post(&self, data: Seq<char>, r: Option<Seq<char>>) -> bool {
        r == self.outcome(data)
    }

    open spec fn exact(&self) -> bool {
        true
    }

    open spec fn outcome(&self, data: Seq<char>) -> Option<Seq<char>> {
        if data.len() == 0 {
            Some(required_msg())
        } else {
            None
        }
    }

    fn validate(&self, data: &str) -> (r: Option<String>) {
        if data.is_empty() {
            Some("Field is required".to_owned())
        } else {
            None
        }
    }
}

/// Ensures the path is free: fails when the path already exists.
///
/// The answer depends on the filesystem, so only the possible outcomes are
/// promised: acceptance, or the "already used" message.
#[derive(Clone, Debug)]
pub struct PathFree;

impl Validator for PathFree {
    open spec fn post(&self, data: Seq<char>, r: Option<Seq<char>>) -> bool {
        r == Option::<Seq<char>>::None || r == Some(path_used_msg())
    }

    open spec fn exact(&self) -> bool {
        false
    }

    open spec fn outcome(&self, data: Seq<char>) -> Option<Seq<char>> {
        None
    }

    fn validate(&self, data: &str) -> (r: Option<String>) {
        path_free_decision(path_exists(data))
    }
}

/// Ensures data is the path of an existing directory, with distinct messages
/// for a missing entry and for an entry of the wrong kind.
#[derive(Clone, Debug)]
pub struct DirExists;

impl Validator for DirExists {
    open spec fn post(&self, data: Seq<char>, r: Option<Seq<char>>) -> bool {
        r == Option::<Seq<char>>::None || r == Some(not_a_dir_msg()) || r == Some(no_dir_msg())
    }

    open spec fn exact(&self) -> bool {
        false
    }

    open spec fn outcome(&self, data: Seq<char>) -> Option<Seq<char>> {
        None
    }

    fn validate(&self, data: &str) -> (r: Option<String>) {
        let exists = path_exists(data);
        let is_dir = path_is_dir(data);
        dir_exists_decision(exists, is_dir)
    }
}

/// Ensures data is the path of an existing regular file, with distinct
/// messages for a missing entry and for an entry of the wrong kind.
#[derive(Clone, Debug)]
pub struct FileExists;

impl Validator for FileExists {
    open spec fn post(&self, data: Seq<char>, r: Option<Seq<char>>) -> bool {
        r == Option::<Seq<char>>::None || r == Some(not_a_file_msg()) || r == Some(no_file_msg())
    }

    open spec fn exact(&self) -> bool {
        false
    }

    open spec fn outcome(&self, data: Seq<char>) -> Option<Seq<char>> {
        None
    }

    fn validate(&self, data: &str) -> (r: Option<String>) {
        let exists = path_exists(data);
        let is_file = path_is_file(data);
        file_exists_decision(exists, is_file)
    }
}

/// Ensures the value is byte-for-byte equal to one of the configured options.
#[derive(Clone, Debug)]
pub struct OneOf(pub Vec<String>);

impl Validator for OneOf {
    open spec fn post(&self, data: Seq<char>, r: Option<Seq<char>>) -> bool {
        r == self.outcome(data)
    }

    open spec fn exact(&self) -> bool {
        true
    }

    open spec fn outcome(&self, data: Seq<char>) -> Option<Seq<char>> {
        if exists|i: int| 0 <= i < self.0.len() && self.0.deep_view()[i] == data {
            None
        } else {
            Some(one_of_msg())
        }
    }

    fn validate(&self, data: &str) -> (r: Option<String>) {
        let n = self.0.len();
        let mut i: usize = 0;
        while i < n
            invariant
                n == self.0.len(),
                i <= n,
                forall|j: int| 0 <= j < i ==> self.0.deep_view()[j] != data@,
            decreases n - i,
        {
            if crate::utils::str_eq(self.0[i].as_str(), data) {
                assert(self.0.deep_view()[i as int] == data@);
                return None;
            }
            i = i + 1;
        }
        Some("Value must be one of options".to_owned())
    }
}

/// A validator that accepts exactly the strings matching a regular
/// expression.  The compiled matcher is kept beside the source text it was
/// compiled from; `source` is the only part the contracts speak of.
#[derive(Clone, Debug)]
pub struct Pattern {
    source: String,
    re: regex::Regex,
}

#[verifier::external_type_specification]
#[verifier::external_body]
pub struct ExRegex(regex::Regex);

/// Relies on `regex::Regex::clone`: lets a validator holding a compiled
/// matcher be cloned.  Nothing is promised of the copy.
pub assume_specification[ <regex::Regex as Clone>::clone ](re: &regex::Regex) -> regex::Regex;

/// Relies on `regex::Regex::new`: compiles the pattern source, or reports
/// it malformed; acceptance depends on the source alone.
#[verifier::external_body]
fn compile(source: &str) -> (r: Option<regex::Regex>)
    ensures
        r is Some <==> regex_compiles(source@),
{
    match regex::Regex::new(source) {
        Ok(re) => Some(re),
        Err(_) => None,
    }
}

/// Relies on `regex::Regex::is_match`: the answer depends only on the source
/// the matcher was compiled from (`p.source`, by construction in
/// [`Pattern::new`]) and on the text.
#[verifier::external_body]
fn pattern_matches(p: &Pattern, text: &str) -> (r: bool)
    ensures
        r == regex_match(p.source@, text@),
{
    p.re.is_match(text)
}

impl Pattern {
    /// The characters of the pattern source this validator was built from.
    pub closed spec fn source_view(&self) -> Seq<char> {
        self.source@
    }

    /// Builds a validator from a regular-expression source; it succeeds
    /// exactly when the source is a valid pattern.
    pub fn new(source: &str) -> (r: Option<Pattern>)
        ensures
            r is Some <==> regex_compiles(source@),
            r matches Some(p) ==> p.source_view() == source@,
    {
        match compile(source) {
            Some(re) => Some(Pattern { source: source.to_owned(), re }),
            None => None,
        }
    }
}

impl Validator for Pattern {
    open spec fn post(&self, data: Seq<char>, r: Option<Seq<char>>) -> bool {
        r == self.outcome(data)
    }

    open spec fn exact(&self) -> bool {
        true
    }

    open spec fn outcome(&self, data: Seq<char>) -> Option<Seq<char>> {
        if regex_match(self.source_view(), data) {
            None
        } else {
            Some(regex_msg(self.source_view(), data))
        }
    }

    fn validate(&self, data: &str) -> (r: Option<String>) {
        if pattern_matches(self, data) {
            None
        } else {
            let mut m = String::new();
            m.append("Value \"");
            m.append(data);
            m.append("\" does not match \"");
            m.append(self.source.as_str());
            m.append("\" regular exp.");
            proof {
                assert(m@ =~= regex_msg(self.source@, data@));
            }
            Some(m)
        }
    }
}

/// One validator of any of the library's kinds; what a field stores.
#[derive(Clone, Debug)]
pub enum ValidatorAny {
    Required(Required),
    PathFree(PathFree),
    DirExists(DirExists),
    FileExists(FileExists),
    OneOf(OneOf),
    Pattern(Pattern),
}

impl Validator for ValidatorAny {
    open spec fn post(&self, data: Seq<char>, r: Option<Seq<char>>) -> bool {
        match self {
            ValidatorAny::Required(v) => v.post(data, r),
            ValidatorAny::PathFree(v) => v.post(data, r),
            ValidatorAny::DirExists(v) => v.post(data, r),
            ValidatorAny::FileExists(v) => v.post(data, r),
            ValidatorAny::OneOf(v) => v.post(data, r),
            ValidatorAny::Pattern(v) => v.post(data, r),
        }
    }

    open spec fn exact(&self) -> bool {
        match self {
            ValidatorAny::Required(v) => v.exact(),
            ValidatorAny::PathFree(v) => v.exact(),
            ValidatorAny::DirExists(v) => v.exact(),
            ValidatorAny::FileExists(v) => v.exact(),
            ValidatorAny::OneOf(v) => v.exact(),
            ValidatorAny::Pattern(v) => v.exact(),
        }
    }

    open spec fn outcome(&self, data: Seq<char>) -> Option<Seq<char>> {
        match self {
            ValidatorAny::Required(v) => v.outcome(data),
            ValidatorAny::PathFree(v) => v.outcome(data),
            ValidatorAny::DirExists(v) => v.outcome(data),
            ValidatorAny::FileExists(v) => v.outcome(data),
            ValidatorAny::OneOf(v) => v.outcome(data),
            ValidatorAny::Pattern(v) => v.outcome(data),
        }
    }

    fn validate(&self, data: &str) -> (r: Option<String>) {
        match self {
            ValidatorAny::Required(v) => v.validate(data),
            ValidatorAny::PathFree(v) => v.validate(data),
            ValidatorAny::DirExists(v) => v.validate(data),
            ValidatorAny::FileExists(v) => v.validate(data),
            ValidatorAny::OneOf(v) => v.validate(data),
            ValidatorAny::Pattern(v) => v.validate(data),
        }
    }
}

} // verus!
