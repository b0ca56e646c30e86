//! The command surface: what the user asked for, and what each command decides.

use vstd::prelude::*;
use crate::error::PyForgeError;
use crate::report::{Line, Style, lines_view, line, push_line, segment};
use crate::validation::{
    lowercase_of,
    name_pattern,
    name_refusal,
    refused_with,
    regex_matches,
    validate_project_name,
};

verus! {

/// The parsed command line.
#[derive(Debug, Clone)]
pub struct Cli {
    /// Verbose mode.
    pub verbose: bool,
    /// An input file.
    pub file: Option<String>,
    /// The subcommand, if one was given.
    pub command: Option<Commands>,
}

/// The subcommands.
#[derive(Debug, Clone)]
pub enum Commands {
    /// Start a new project.
    Init { name: String, template: Option<String> },
    /// Build the project in the current directory.
    Build,
}

/// The outcome of `init` for `name`, given the verdict inputs of the name check
/// and whether an entry named `name` already exists: a refused name first, then
/// a collision, else success.
pub open spec fn init_verdict(
    r: Result<(), PyForgeError>,
    name: Seq<char>,
    syntax_ok: bool,
    lowered: Seq<char>,
    exists: bool,
) -> bool {
    match name_refusal(name, syntax_ok, lowered) {
        Some(reason) => refused_with(r, name, reason),
        None => if exists {
            r matches Err(PyForgeError::ProjectAlreadyExists { name: n, path: p }) && n@ == name
                && p@ == name
        } else {
            r is Ok
        },
    }
}

/// Runs `init`: the name must be acceptable and `exists`, whether an entry
/// named `name` is already in the current directory, must be false.
pub fn run(name: &str, template: &Option<String>, exists: bool) -> (r: Result<(), PyForgeError>)
    ensures
        init_verdict(r, name@, regex_matches(name_pattern(), name@), lowercase_of(name@), exists),
{
    match validate_project_name(name) {
        Ok(()) => {},
        Err(e) => {
            return Err(e);
        },
    }
    if exists {
        return Err(
            PyForgeError::ProjectAlreadyExists {
                name: String::from_str(name),
                path: String::from_str(name),
            },
        );
    }
    Ok(())
}

/// Runs a subcommand. `exists` says whether an entry named after the target
/// of `init` is already present; other commands ignore it.
pub fn execute_command(command: Commands, exists: bool) -> (r: Result<(), PyForgeError>)
    ensures
        command matches Commands::Init { name, .. } ==> init_verdict(
            r,
            name@,
            regex_matches(name_pattern(), name@),
            lowercase_of(name@),
            exists,
        ),
        command is Build ==> (r matches Err(PyForgeError::NotImplemented { feature }) && feature@
            == "build"@),
{
    match command {
        Commands::Init { name, template } => run(name.as_str(), &template, exists),
        Commands::Build => Err(PyForgeError::NotImplemented { feature: String::from_str("build") }),
    }
}

/// The picture shown above the welcome text.
pub const BANNER: &'static str = r#"
    ____        ______                    
   / __ \__  __/ ____/___  _________ ____ 
  / /_/ / / / / /_  / __ \/ ___/ __ `/ _ \
 / ____/ /_/ / __/ / /_/ / /  / /_/ /  __/
/_/    \__, /_/    \____/_/   \__, /\___/ 
      /____/                /____/       
    "#;

/// The text shown when no subcommand is given.
pub open spec fn welcome_of() -> Seq<Seq<(Style, Seq<char>)>> {
    seq![
        seq![],
        seq![(Style::RedBold, BANNER@)],
        seq![(Style::Plain, "Welcome to PyForge!"@)],
        seq![
            (Style::Plain,
            "PyForge is a blazing fast, flexible, and user-friendly tool for building Python projects."@),
        ],
        seq![
            (Style::Plain, "Get started by running '"@),
            (Style::YellowBold, "pyforge --help"@),
            (Style::Plain, "'."@),
        ],
        seq![(Style::Plain, "Happy coding! 🚀"@)],
    ]
}

/// The welcome text, line by line.
pub fn welcome_lines() -> (r: Vec<Line>)
    ensures
        lines_view(r@) == welcome_of(),
{
    let mut out: Vec<Line> = Vec::new();
    let blank = line(Vec::new());
    assert(blank@ =~= seq![]);
    push_line(&mut out, blank);
    let banner = line(vec![segment(Style::RedBold, BANNER)]);
    assert(banner@ =~= seq![(Style::RedBold, BANNER@)]);
    push_line(&mut out, banner);
    let hello = line(vec![segment(Style::Plain, "Welcome to PyForge!")]);
    assert(hello@ =~= seq![(Style::Plain, "Welcome to PyForge!"@)]);
    push_line(&mut out, hello);
    let pitch = line(
        vec![
            segment(
                Style::Plain,
                "PyForge is a blazing fast, flexible, and user-friendly tool for building Python projects.",
            ),
        ],
    );
    assert(pitch@ =~= seq![
        (Style::Plain,
        "PyForge is a blazing fast, flexible, and user-friendly tool for building Python projects."@),
    ]);
    push_line(&mut out, pitch);
    let start = line(
        vec![
            segment(Style::Plain, "Get started by running '"),
            segment(Style::YellowBold, "pyforge --help"),
            segment(Style::Plain, "'."),
        ],
    );
    assert(start@ =~= seq![
        (Style::Plain, "Get started by running '"@),
        (Style::YellowBold, "pyforge --help"@),
        (Style::Plain, "'."@),
    ]);
    push_line(&mut out, start);
    let bye = line(vec![segment(Style::Plain, "Happy coding! 🚀")]);
    assert(bye@ =~= seq![(Style::Plain, "Happy coding! 🚀"@)]);
    push_line(&mut out, bye);
    assert(lines_view(out@) =~= welcome_of());
    out
}

/// What `init` reports once the project name has been accepted.
pub open spec fn init_success_of(name: Seq<char>) -> Seq<Seq<(Style, Seq<char>)>> {
    seq![
        seq![(Style::Green, "🚀"@), (Style::Plain, " Creating project: "@), (Style::Cyan, name)],
        seq![
            (Style::Green, "✅"@),
            (Style::Plain, " Project '"@),
            (Style::Green, name),
            (Style::Plain, "' created successfully!"@),
        ],
    ]
}

/// What `init` reports once the project name has been accepted, line by line.
pub fn init_success_lines(name: &str) -> (r: Vec<Line>)
    ensures
        lines_view(r@) == init_success_of(name@),
{
    let mut out: Vec<Line> = Vec::new();
    let first = line(
        vec![
            segment(Style::Green, "🚀"),
            segment(Style::Plain, " Creating project: "),
            segment(Style::Cyan, name),
        ],
    );
    assert(first@ =~= seq![
        (Style::Green, "🚀"@),
        (Style::Plain, " Creating project: "@),
        (Style::Cyan, name@),
    ]);
    push_line(&mut out, first);
    let second = line(
        vec![
            segment(Style::Green, "✅"),
            segment(Style::Plain, " Project '"),
            segment(Style::Green, name),
            segment(Style::Plain, "' created successfully!"),
        ],
    );
    assert(second@ =~= seq![
        (Style::Green, "✅"@),
        (Style::Plain, " Project '"@),
        (Style::Green, name@),
        (Style::Plain, "' created successfully!"@),
    ]);
    push_line(&mut out, second);
    assert(lines_view(out@) =~= init_success_of(name@));
    out
}

} // verus!
