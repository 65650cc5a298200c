//! Interprets the command-line arguments (the program name left out).

use vstd::prelude::*;
use crate::profile::{Framework, framework_of, views};
use crate::text::str_eq;

verus! {

/// A build file to be made: the folder to copy, the framework, and the port
/// to expose if it is overridden.
#[derive(Debug)]
pub struct BuildRequest {
    pub directory: String,
    pub framework: Framework,
    pub port_override: Option<String>,
}

/// What the arguments ask for.
#[derive(Debug)]
pub enum Command {
    /// Print the usage text and succeed.
    Help,
    /// Make a build file.
    Generate(BuildRequest),
}

/// Why the arguments cannot be acted on.
#[derive(Clone, Copy, Debug, PartialEq, Eq, Structural)]
pub enum UsageError {
    /// No folder was given.
    MissingDirectory,
    /// A port flag is the last argument, with no value after it.
    MissingPortValue,
    /// No argument after the folder names a supported framework.
    UnknownFramework,
}

/// A request for the usage text.
pub open spec fn is_help_word(a: Seq<char>) -> bool {
    a == "--help"@ || a == "help"@ || a == "--version"@ || a == "version"@
}

/// A port flag, which takes the next argument as its value.
pub open spec fn is_port_flag(a: Seq<char>) -> bool {
    a == "--port"@ || a == "port"@
}

/// Whether any argument asks for the usage text.
pub open spec fn asks_help(args: Seq<Seq<char>>) -> bool {
    exists|i: int| 0 <= i < args.len() && is_help_word(#[trigger] args[i])
}

/// The position of the first port flag at or after `i`.
pub open spec fn first_port_flag(args: Seq<Seq<char>>, i: int) -> Option<int>
    decreases args.len() - i,
{
    if i < 0 || i >= args.len() {
        None
    } else if is_port_flag(args[i]) {
        Some(i)
    } else {
        first_port_flag(args, i + 1)
    }
}

/// The first framework named at or after position `i`.
pub open spec fn first_framework(args: Seq<Seq<char>>, i: int) -> Option<Framework>
    decreases args.len() - i,
{
    if i < 0 || i >= args.len() {
        None
    } else if framework_of(args[i]) is Some {
        framework_of(args[i])
    } else {
        first_framework(args, i + 1)
    }
}

/// What a request holds, as plain values.
pub struct RequestView {
    pub directory: Seq<char>,
    pub framework: Framework,
    pub port_override: Option<Seq<char>>,
}

impl View for BuildRequest {
    type V = RequestView;

    open spec fn view(&self) -> RequestView {
        RequestView {
            directory: self.directory@,
            framework: self.framework,
            port_override: match self.port_override {
                Some(p) => Some(p@),
                None => None,
            },
        }
    }
}

/// A command, as plain values.
pub enum CommandView {
    Help,
    Generate(RequestView),
}

impl View for Command {
    type V = CommandView;

    open spec fn view(&self) -> CommandView {
        match self {
            Command::Help => CommandView::Help,
            Command::Generate(r) => CommandView::Generate(r@),
        }
    }
}

/// The meaning of the arguments. A help or version word anywhere wins. The
/// first argument is the folder. The port value is the argument after the first
/// port flag, taken verbatim. The framework is the first keyword after the folder.
pub open spec fn interpret(args: Seq<Seq<char>>) -> Result<CommandView, UsageError> {
    if asks_help(args) {
        Ok(CommandView::Help)
    } else if args.len() == 0 {
        Err(UsageError::MissingDirectory)
    } else {
        let port = first_port_flag(args, 0);
        if port is Some && port->0 + 1 >= args.len() {
            Err(UsageError::MissingPortValue)
        } else {
            match first_framework(args, 1) {
                None => Err(UsageError::UnknownFramework),
                Some(f) => Ok(CommandView::Generate(RequestView {
                    directory: args[0],
                    framework: f,
                    port_override: match port {
                        Some(i) => Some(args[i + 1]),
                        None => None,
                    },
                })),
            }
        }
    }
}

fn is_help_arg(a: &str) -> (r: bool)
    ensures
        r == is_help_word(a@),
{
    str_eq(a, "--help") || str_eq(a, "help") || str_eq(a, "--version") || str_eq(a, "version")
}

fn is_port_arg(a: &str) -> (r: bool)
    ensures
        r == is_port_flag(a@),
{
    str_eq(a, "--port") || str_eq(a, "port")
}

/// Interprets the arguments that follow the program name.
pub fn parse_args(args: &Vec<String>) -> (r: Result<Command, UsageError>)
    ensures
        match r {
            Ok(c) => interpret(views(args@)) == Ok::<CommandView, UsageError>(c@),
            Err(e) => interpret(views(args@)) == Err::<CommandView, UsageError>(e),
        },
{
    let ghost a = views(args@);
    let n = args.len();
    let mut i: usize = 0;
    while i < n
        invariant
            n == args@.len(),
            a == views(args@),
            i <= n,
            forall|j: int| 0 <= j < i ==> !is_help_word(#[trigger] a[j]),
        decreases n - i,
    {
        if is_help_arg(args[i].as_str()) {
            assert(is_help_word(a[i as int]));
            return Ok(Command::Help);
        }
        i = i + 1;
    }
    if n == 0 {
        return Err(UsageError::MissingDirectory);
    }
    // the first port flag
    let mut k: usize = 0;
    while k < n && !is_port_arg(args[k].as_str())
        invariant
            n == args@.len(),
            a == views(args@),
            k <= n,
            first_port_flag(a, 0) == first_port_flag(a, k as int),
        decreases n - k,
    {
        k = k + 1;
    }
    let port_override = if k < n {
        assert(first_port_flag(a, 0) == Some(k as int));
        if k + 1 >= n {
            return Err(UsageError::MissingPortValue);
        }
        Some(args[k + 1].clone())
    } else {
        None
    };
    // the first framework after the folder
    let mut j: usize = 1;
    let mut found: Option<Framework> = None;
    while j < n && found.is_none()
        invariant
            n == args@.len(),
            a == views(args@),
            1 <= j <= n,
            found is None ==> first_framework(a, 1) == first_framework(a, j as int),
            found is Some ==> first_framework(a, 1) == found,
        decreases n - j,
    {
        found = Framework::from_keyword(args[j].as_str());
        j = j + 1;
    }
    match found {
        None => Err(UsageError::UnknownFramework),
        Some(f) => {
            let r = BuildRequest { directory: args[0].clone(), framework: f, port_override };
            Ok(Command::Generate(r))
        },
    }
}

} // verus!
