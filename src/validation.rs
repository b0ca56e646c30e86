//! Checks on user input: project names, runtime versions, project markers.

use vstd::prelude::*;
use crate::error::PyForgeError;
use crate::text::concat3;

verus! {

#[verifier::external_type_specification]
#[verifier::external_body]
pub struct ExRegex(regex::Regex);

#[verifier::external_type_specification]
#[verifier::external_body]
pub struct ExRegexError(regex::Error);

/// Whether the regular expression `pattern` matches somewhere in `haystack`.
pub uninterp spec fn regex_matches(pattern: Seq<char>, haystack: Seq<char>) -> bool;

/// The Unicode lowercase form of a string.
pub uninterp spec fn lowercase_of(s: Seq<char>) -> Seq<char>;

/// A compiled regular expression, kept beside the text it was compiled from.
struct CompiledPattern {
    source: String,
    regex: regex::Regex,
}

impl CompiledPattern {
    /// Relies on regex::Regex::new: compiles `pattern`, or reports why it cannot.
    /// It fails only on an invalid pattern or one over the default size limit;
    /// the name pattern is valid and small, so it compiles.
    #[verifier::external_body]
    fn compile(pattern: &str) -> (r: Result<CompiledPattern, regex::Error>)
        ensures
            r matches Ok(p) ==> p.source@ == pattern@,
            pattern@ == name_pattern() ==> r is Ok,
    {
        match regex::Regex::new(pattern) {
            Ok(regex) => Ok(CompiledPattern { source: pattern.to_string(), regex }),
            Err(e) => Err(e),
        }
    }

    /// Relies on regex::Regex::is_match: whether the pattern matches somewhere in
    /// `haystack`.
    #[verifier::external_body]
    fn is_match(&self, haystack: &str) -> (r: bool)
        ensures
            r == regex_matches(self.source@, haystack@),
    {
        self.regex.is_match(haystack)
    }
}

/// Relies on str::to_lowercase: the Unicode lowercase form of `s`, which
/// depends on the characters of `s` alone.
#[verifier::external_body]
fn to_lowercase(s: &str) -> (r: String)
    ensures
        r@ == lowercase_of(s@),
{
    s.to_lowercase()
}

/// The longest accepted project name, in characters.
pub const MAX_NAME_CHARS: usize = 50;

/// The syntax of a project name: a letter, then letters, digits, '-' and '_'.
pub open spec fn name_pattern() -> Seq<char> {
    "^[a-zA-Z][a-zA-Z0-9_-]*$"@
}

/// Names that would clash with conventional project directories.
pub open spec fn is_reserved(lowered: Seq<char>) -> bool {
    ||| lowered == "test"@
    ||| lowered == "tests"@
    ||| lowered == "lib"@
    ||| lowered == "src"@
    ||| lowered == "build"@
    ||| lowered == "dist"@
}

/// Why a project name is refused, or `None` when it is accepted. The checks
/// run in order and the first that fails gives the reason: empty, too long,
/// bad syntax (`syntax_ok` is whether the name matches the name pattern),
/// reserved (`lowered` is the name in lowercase).
pub open spec fn name_refusal(name: Seq<char>, syntax_ok: bool, lowered: Seq<char>) -> Option<
    Seq<char>,
> {
    if name.len() == 0 {
        Some("Name cannot be empty"@)
    } else if name.len() > MAX_NAME_CHARS {
        Some("Name is too long (maximum 50 characters)"@)
    } else if !syntax_ok {
        Some("Only letters, numbers, hyphens and underscores. Must start with letter"@)
    } else if is_reserved(lowered) {
        Some("'"@ + name + "' is a reserved word"@)
    } else {
        None
    }
}

/// `r` refuses the project name `name` for `reason`.
pub open spec fn refused_with(r: Result<(), PyForgeError>, name: Seq<char>, reason: Seq<char>) -> bool {
    r matches Err(PyForgeError::InvalidProjectName { name: n, reason: m }) && n@ == name && m@
        == reason
}

/// `r` is the verdict that `name_refusal` gives.
pub open spec fn name_verdict(
    r: Result<(), PyForgeError>,
    name: Seq<char>,
    syntax_ok: bool,
    lowered: Seq<char>,
) -> bool {
    match name_refusal(name, syntax_ok, lowered) {
        None => r is Ok,
        Some(reason) => refused_with(r, name, reason),
    }
}

/// A name of 1 to 50 characters that matches the name pattern and whose
/// lowercase form is not reserved is accepted.
pub proof fn lemma_well_formed_name_accepted(name: Seq<char>)
    requires
        1 <= name.len() <= MAX_NAME_CHARS,
        regex_matches(name_pattern(), name),
        !is_reserved(lowercase_of(name)),
    ensures
        name_refusal(name, regex_matches(name_pattern(), name), lowercase_of(name)) is None,
{
}

/// A name of acceptable length and syntax whose lowercase form is reserved is
/// refused, and the reason quotes the name.
pub proof fn lemma_reserved_name_refused(name: Seq<char>, lowered: Seq<char>)
    requires
        1 <= name.len() <= MAX_NAME_CHARS,
        is_reserved(lowered),
    ensures
        name_refusal(name, true, lowered) == Some("'"@ + name + "' is a reserved word"@),
        ("'"@ + name + "' is a reserved word"@).subrange(1, name.len() as int + 1) == name,
{
    reveal_strlit("'");
    assert(("'"@ + name + "' is a reserved word"@).subrange(1, name.len() as int + 1) =~= name);
}

/// A name that is empty or longer than 50 characters is refused, whatever the
/// outcome of the other checks.
pub proof fn lemma_bad_length_refused(name: Seq<char>, syntax_ok: bool, lowered: Seq<char>)
    requires
        name.len() == 0 || name.len() > MAX_NAME_CHARS,
    ensures
        name_refusal(name, syntax_ok, lowered) is Some,
{
}

fn is_reserved_word(lowered: &str) -> (r: bool)
    ensures
        r == is_reserved(lowered@),
{
    let l = String::from_str(lowered);
    l == String::from_str("test") || l == String::from_str("tests") || l == String::from_str("lib")
        || l == String::from_str("src") || l == String::from_str("build") || l == String::from_str(
        "dist",
    )
}

fn refuse_name(name: &str, reason: String) -> (r: Result<(), PyForgeError>)
    ensures
        refused_with(r, name@, reason@),
{
    Err(PyForgeError::InvalidProjectName { name: String::from_str(name), reason })
}

/// Decides on a project name, given whether it matches the name pattern and
/// its lowercase form.
pub fn check_project_name(name: &str, syntax_ok: bool, lowered: &str) -> (r: Result<(), PyForgeError>)
    ensures
        name_verdict(r, name@, syntax_ok, lowered@),
{
    let len = name.unicode_len();
    if len == 0 {
        refuse_name(name, String::from_str("Name cannot be empty"))
    } else if len > MAX_NAME_CHARS {
        refuse_name(name, String::from_str("Name is too long (maximum 50 characters)"))
    } else if !syntax_ok {
        refuse_name(
            name,
            String::from_str("Only letters, numbers, hyphens and underscores. Must start with letter"),
        )
    } else if is_reserved_word(lowered) {
        refuse_name(name, concat3("'", name, "' is a reserved word"))
    } else {
        Ok(())
    }
}

/// Checks that `name` can name a new project: it must be non-empty, at most
/// 50 characters, match the name pattern, and not be reserved in any case.
/// The first check that fails gives the reason.
pub fn validate_project_name(name: &str) -> (r: Result<(), PyForgeError>)
    ensures
        name_verdict(r, name@, regex_matches(name_pattern(), name@), lowercase_of(name@)),
{
    let len = name.unicode_len();
    if len == 0 || len > MAX_NAME_CHARS {
        return check_project_name(name, true, name);
    }
    let pattern = match CompiledPattern::compile("^[a-zA-Z][a-zA-Z0-9_-]*$") {
        Ok(p) => p,
        Err(_) => {
            proof {
                assert(false);
            }
            return check_project_name(name, false, name);
        },
    };
    let syntax_ok = pattern.is_match(name);
    if !syntax_ok {
        return check_project_name(name, false, name);
    }
    let lowered = to_lowercase(name);
    check_project_name(name, true, lowered.as_str())
}

/// `prefix` is a prefix of `s`.
pub open spec fn has_prefix(s: Seq<char>, prefix: Seq<char>) -> bool {
    prefix.len() <= s.len() && s.take(prefix.len() as int) == prefix
}

fn starts_with(s: &str, prefix: &str) -> (r: bool)
    ensures
        r == has_prefix(s@, prefix@),
{
    let n = prefix.unicode_len();
    if n > s.unicode_len() {
        return false;
    }
    let mut i: usize = 0;
    while i < n
        invariant
            n == prefix@.len(),
            n <= s@.len(),
            0 <= i <= n,
            s@.take(i as int) == prefix@.take(i as int),
        decreases n - i,
    {
        if s.get_char(i) != prefix.get_char(i) {
            assert(s@.take(n as int)[i as int] != prefix@[i as int]);
            return false;
        }
        assert(s@.take(i + 1) =~= s@.take(i as int).push(s@[i as int]));
        assert(prefix@.take(i + 1) =~= prefix@.take(i as int).push(prefix@[i as int]));
        i = i + 1;
    }
    assert(prefix@.take(n as int) =~= prefix@);
    true
}

/// The Python versions supported: those that begin with 3.8, 3.9, 3.10, 3.11
/// or 3.12, so that any patch release of a supported line is accepted.
pub open spec fn is_supported_version(version: Seq<char>) -> bool {
    ||| has_prefix(version, "3.8"@)
    ||| has_prefix(version, "3.9"@)
    ||| has_prefix(version, "3.10"@)
    ||| has_prefix(version, "3.11"@)
    ||| has_prefix(version, "3.12"@)
}

/// Checks that `version` belongs to a supported Python release line.
pub fn validate_python_version(version: &str) -> (r: Result<(), PyForgeError>)
    ensures
        is_supported_version(version@) ==> r is Ok,
        !is_supported_version(version@) ==> (r matches Err(
            PyForgeError::UnsupportedPythonVersion { version: v },
        ) && v@ == version@),
{
    if starts_with(version, "3.8") || starts_with(version, "3.9") || starts_with(version, "3.10")
        || starts_with(version, "3.11") || starts_with(version, "3.12") {
        Ok(())
    } else {
        Err(PyForgeError::UnsupportedPythonVersion { version: String::from_str(version) })
    }
}

/// The files whose presence marks a directory as a Python project.
pub open spec fn marker_names() -> Seq<Seq<char>> {
    seq!["setup.py"@, "pyproject.toml"@, "requirements.txt"@, "Pipfile"@]
}

/// The files whose presence marks a directory as a Python project, in the
/// order in which `ensure_python_project` expects to hear about them.
pub fn marker_files() -> (r: Vec<&'static str>)
    ensures
        r@.map_values(|s: &str| s@) == marker_names(),
{
    let r = vec!["setup.py", "pyproject.toml", "requirements.txt", "Pipfile"];
    assert(r@.map_values(|s: &str| s@) =~= marker_names());
    r
}

/// Checks that the current directory holds a Python project. `present[i]`
/// says whether the i-th of `marker_files` exists there; the contents of the
/// files never matter.
pub fn ensure_python_project(present: &[bool]) -> (r: Result<(), PyForgeError>)
    ensures
        r is Ok <==> exists|i: int| 0 <= i < present@.len() && present@[i],
        r is Err ==> r == Err::<(), PyForgeError>(PyForgeError::NotAPythonProject),
{
    let mut i: usize = 0;
    while i < present.len()
        invariant
            0 <= i <= present@.len(),
            forall|j: int| 0 <= j < i ==> !present@[j],
        decreases present@.len() - i,
    {
        if present[i] {
            return Ok(());
        }
        i = i + 1;
    }
    Err(PyForgeError::NotAPythonProject)
}

} // verus!
