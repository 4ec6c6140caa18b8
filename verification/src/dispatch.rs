//! What a command line asks for: the status report, or a command that is
//! handed on to the external tool.

use vstd::prelude::*;

use crate::error::RepoStatusError;

verus! {

/// The two ways a run can go.
#[derive(Clone, Debug, PartialEq, Eq)]
pub enum Dispatch {
    /// Report the status of every project.
    Status,
    /// Start the external tool with these arguments and exit with its code.
    Delegate(Vec<String>),
}

/// A `Dispatch` as a mathematical value.
pub enum DispatchView {
    Status,
    Delegate(Seq<Seq<char>>),
}

impl View for Dispatch {
    type V = DispatchView;

    open spec fn view(&self) -> DispatchView {
        match self {
            Dispatch::Status => DispatchView::Status,
            Dispatch::Delegate(arguments) => DispatchView::Delegate(arguments.deep_view()),
        }
    }
}

/// What the argument parser makes of the command line `argv`, whose first
/// item is the name the process was started under: `None` where it rejects
/// the command line (an unknown subcommand or flag, a request for help);
/// else the name of the subcommand it matched, if there is one.
pub uninterp spec fn parsed_subcommand(argv: Seq<Seq<char>>) -> Option<Option<Seq<char>>>;

/// The command line without the name the process was started under.
pub open spec fn forwarded(argv: Seq<Seq<char>>) -> Seq<Seq<char>> {
    if argv.len() == 0 {
        argv
    } else {
        argv.skip(1)
    }
}

/// The way a run goes, given what the argument parser made of its command
/// line: the status report where the parser matched the subcommand `status`;
/// in every other case the external tool, with the whole command line but
/// its first item.
pub open spec fn dispatch_of(
    parsed: Option<Option<Seq<char>>>,
    argv: Seq<Seq<char>>,
) -> DispatchView {
    if parsed == Some(Some("status"@)) {
        DispatchView::Status
    } else {
        DispatchView::Delegate(forwarded(argv))
    }
}

/// Runs `clap::App::get_matches_from_safe` on `argv`, for an application
/// `repo` with the one subcommand `status` and without the version flag at
/// any level, so that the parser writes nothing itself, and hands back
/// `clap::ArgMatches::subcommand_name` of its result. What the parser
/// accepts is its own matter: the contract only names the outcome, which
/// depends on `argv` alone.
#[verifier::external_body]
fn parse_command_line(argv: &Vec<String>) -> (parsed: Option<Option<String>>)
    ensures
        parsed.deep_view() == parsed_subcommand(argv.deep_view()),
{
    clap::App::new("repo")
        .global_setting(clap::AppSettings::DisableVersion)
        .subcommand(clap::SubCommand::with_name("status"))
        .get_matches_from_safe(argv.iter())
        .ok()
        .map(|matches| matches.subcommand_name().map(String::from))
}

/// Decides how the run goes from what the argument parser made of `argv`.
pub fn dispatch_parsed(parsed: Option<Option<String>>, argv: Vec<String>) -> (way: Dispatch)
    ensures
        way@ == dispatch_of(parsed.deep_view(), argv.deep_view()),
{
    let recognized = match &parsed {
        Some(Some(name)) => *name == String::from_str("status"),
        _ => false,
    };
    if recognized {
        Dispatch::Status
    } else {
        let mut rest = argv;
        if rest.len() > 0 {
            rest.remove(0);
        }
        assert(rest.deep_view() =~= forwarded(argv.deep_view()));
        Dispatch::Delegate(rest)
    }
}

/// Decides how the run goes for the command line `argv`, whose first item
/// is the name the process was started under.
pub fn dispatch(argv: Vec<String>) -> (way: Dispatch)
    ensures
        way@ == dispatch_of(parsed_subcommand(argv.deep_view()), argv.deep_view()),
{
    let parsed = parse_command_line(&argv);
    dispatch_parsed(parsed, argv)
}

/// The failure to report where the external tool could not be started:
/// `not_found` tells whether the cause is that no such executable exists.
pub fn spawn_failure(not_found: bool) -> (failure: RepoStatusError)
    ensures
        failure == if not_found {
            RepoStatusError::ExternalToolNotFound
        } else {
            RepoStatusError::ExternalToolFailed
        },
{
    if not_found {
        RepoStatusError::ExternalToolNotFound
    } else {
        RepoStatusError::ExternalToolFailed
    }
}

} // verus!
