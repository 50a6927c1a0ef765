//! Runtime configuration and the command-line arguments it is built from.
use vstd::prelude::*;

verus! {

/// Command-line arguments (the parser lives with the program).
#[derive(Debug, Clone)]
pub struct Cli {
    /// Run only the named checker(s), e.g. `--only memory --only cpu`.
    pub only: Vec<String>,
    /// List all available checkers and exit.
    pub list: bool,
    /// Disable saving a report file to ~/Desktop.
    pub no_report: bool,
    /// Disable colour output.
    pub no_color: bool,
    /// Skip the interactive fix-runner after the report.
    pub no_interactive: bool,
    /// Enable deeper thermal/power diagnostics (requires sudo).
    pub with_sudo: bool,
}

/// Runtime configuration threaded through every checker.
#[derive(Debug, Clone)]
pub struct Config {
    /// Whether the user ran the tool with `sudo` / as root.
    pub with_sudo: bool,
    /// Run only the named checkers (empty = run all).
    pub only: Vec<String>,
    /// Write a plain-text report file to the Desktop.
    pub save_report: bool,
    /// Silence colour output.
    pub no_color: bool,
}

/// The views of a vector of strings.
pub open spec fn strings_view(v: Seq<String>) -> Seq<Seq<char>> {
    v.map_values(|s: String| s@)
}

/// A copy of a vector of strings.
pub fn copy_strings(v: &Vec<String>) -> (r: Vec<String>)
    ensures
        strings_view(r@) == strings_view(v@),
{
    let mut r: Vec<String> = Vec::new();
    for i in 0..v.len()
        invariant
            strings_view(r@) == strings_view(v@).take(i as int),
    {
        let ghost prev = r@;
        let s = v[i].clone();
        r.push(s);
        assert(strings_view(r@) =~= strings_view(prev).push(s@));
        assert(strings_view(v@).take(i + 1) =~= strings_view(v@).take(i as int).push(v@[i as int]@));
    }
    assert(strings_view(v@).take(v@.len() as int) =~= strings_view(v@));
    r
}

impl Default for Config {
    /// All checkers, report saved, colour on, no sudo.
    fn default() -> (c: Config)
        ensures
            !c.with_sudo,
            c.only@.len() == 0,
            c.save_report,
            !c.no_color,
    {
        Config { with_sudo: false, only: Vec::new(), save_report: true, no_color: false }
    }
}

impl Config {
    /// The configuration the command line asks for: the report is saved
    /// unless `--no-report` was given.
    pub fn from_cli(cli: &Cli) -> (c: Config)
        ensures
            c.with_sudo == cli.with_sudo,
            strings_view(c.only@) == strings_view(cli.only@),
            c.save_report == !cli.no_report,
            c.no_color == cli.no_color,
    {
        Config {
            with_sudo: cli.with_sudo,
            only: copy_strings(&cli.only),
            save_report: !cli.no_report,
            no_color: cli.no_color,
        }
    }
}

} // verus!
