//! Command-line arguments of the notebook program.

use vstd::prelude::*;
use crate::utils::path::{parent_of, path_parent};

verus! {

/// What the program was asked to open
#[derive(Debug, Clone)]
pub struct Flags {
    /// Files to open on startup
    pub files: Vec<String>,
    /// Working directory for the file browser
    pub working_dir: Option<String>,
}

/// What the command line asks for
#[derive(Debug, Clone)]
pub enum ParsedArgs {
    /// Show the usage text
    Help,
    /// Show the version
    Version,
    /// `--directory` came without a path
    MissingDirectory,
    /// An option that is not known
    UnknownOption(String),
    /// Run with these flags
    Run(Flags),
}

/// What the command line asks for, with its texts as character sequences.
pub enum ArgsOutcome {
    Help,
    Version,
    MissingDirectory,
    UnknownOption(Seq<char>),
    Run { files: Seq<Seq<char>>, working_dir: Option<Seq<char>> },
}

impl View for ParsedArgs {
    type V = ArgsOutcome;

    open spec fn view(&self) -> ArgsOutcome {
        match self {
            ParsedArgs::Help => ArgsOutcome::Help,
            ParsedArgs::Version => ArgsOutcome::Version,
            ParsedArgs::MissingDirectory => ArgsOutcome::MissingDirectory,
            ParsedArgs::UnknownOption(o) => ArgsOutcome::UnknownOption(o@),
            ParsedArgs::Run(f) => ArgsOutcome::Run {
                files: f.files@.map_values(|s: String| s@),
                working_dir: match f.working_dir {
                    Some(d) => Some(d@),
                    None => None,
                },
            },
        }
    }
}

/// The outcome of reading `args` from index `i` on, with the files and
/// directory gathered so far. Options are read in order: help and version
/// stop at once, `-d`/`--directory` takes the next argument (the last one
/// given wins), any other argument starting with `-` is unknown, and the
/// rest are files.
pub open spec fn scan_args(
    args: Seq<Seq<char>>,
    i: int,
    files: Seq<Seq<char>>,
    dir: Option<Seq<char>>,
) -> ArgsOutcome
    decreases args.len() - i,
{
    if i < 0 || i >= args.len() {
        ArgsOutcome::Run { files, working_dir: dir }
    } else {
        let a = args[i];
        if a == "-h"@ || a == "--help"@ {
            ArgsOutcome::Help
        } else if a == "-v"@ || a == "--version"@ {
            ArgsOutcome::Version
        } else if a == "-d"@ || a == "--directory"@ {
            if i + 1 < args.len() {
                scan_args(args, i + 2, files, Some(args[i + 1]))
            } else {
                ArgsOutcome::MissingDirectory
            }
        } else if a.len() > 0 && a[0] == '-' {
            ArgsOutcome::UnknownOption(a)
        } else {
            scan_args(args, i + 1, files.push(a), dir)
        }
    }
}

/// The outcome of the whole command line (its first entry is the program).
/// Without a directory, the first file's parent directory is used when it
/// has one.
pub open spec fn parsed(args: Seq<Seq<char>>) -> ArgsOutcome {
    match scan_args(args, 1, Seq::empty(), None) {
        ArgsOutcome::Run { files, working_dir } => ArgsOutcome::Run {
            files,
            working_dir: if working_dir is None && files.len() > 0 {
                parent_of(files[0])
            } else {
                working_dir
            },
        },
        other => other,
    }
}

/// Read the command line; `args` holds the program name first, as
/// `std::env::args` gives it
pub fn parse_args(args: &Vec<String>) -> (r: ParsedArgs)
    ensures
        r@ == parsed(args@.map_values(|s: String| s@)),
{
    let ghost a = args@.map_values(|s: String| s@);
    let mut files: Vec<String> = Vec::new();
    let mut dir: Option<String> = None;
    let mut i: usize = 1;
    let help = String::from_str("-h");
    let help_long = String::from_str("--help");
    let version = String::from_str("-v");
    let version_long = String::from_str("--version");
    let directory = String::from_str("-d");
    let directory_long = String::from_str("--directory");
    assert(files@.map_values(|s: String| s@) =~= Seq::<Seq<char>>::empty());
    while i < args.len()
        invariant
            a == args@.map_values(|s: String| s@),
            1 <= i,
            help@ == "-h"@,
            help_long@ == "--help"@,
            version@ == "-v"@,
            version_long@ == "--version"@,
            directory@ == "-d"@,
            directory_long@ == "--directory"@,
            scan_args(a, i as int, files@.map_values(|s: String| s@), match dir {
                Some(d) => Some(d@),
                None => None,
            }) == scan_args(a, 1, Seq::empty(), None),
        decreases args@.len() - i,
    {
        let arg = &args[i];
        assert(a[i as int] == arg@);
        if *arg == help || *arg == help_long {
            return ParsedArgs::Help;
        }
        if *arg == version || *arg == version_long {
            return ParsedArgs::Version;
        }
        if *arg == directory || *arg == directory_long {
            if i + 1 < args.len() {
                assert(a[i + 1] == args@[i + 1]@);
                dir = Some(args[i + 1].clone());
                i = i + 2;
                continue;
            } else {
                return ParsedArgs::MissingDirectory;
            }
        }
        let n = arg.as_str().unicode_len();
        if n > 0 && arg.as_str().get_char(0) == '-' {
            return ParsedArgs::UnknownOption(arg.clone());
        }
        let ghost before = files@.map_values(|s: String| s@);
        files.push(arg.clone());
        assert(files@.map_values(|s: String| s@) =~= before.push(arg@));
        i = i + 1;
    }
    if dir.is_none() && files.len() > 0 {
        dir = path_parent(files[0].as_str());
    }
    ParsedArgs::Run(Flags { files, working_dir: dir })
}

} // verus!
