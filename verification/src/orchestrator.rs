//! The decisions that drive one run: parse the command-line verb, route on
//! how many players were found (fail on none, act directly on exactly one,
//! show the menu for two or more), turn the menu's answer into a dispatch,
//! and turn the dispatch outcome into an exit.
//!
//! Each function maps the result of one outside step to a [`Directive`], the
//! single action the surrounding binary performs next; the binary only
//! follows directives and does no deciding of its own.

use vstd::prelude::*;
use vstd::string::StringExecFns;

verus! {

/// The control command requested on the command line.
#[derive(Clone, Copy, Debug, PartialEq, Eq, Structural)]
pub enum Verb {
    PlayPause,
    CycleLoop,
}

/// Every fatal condition a run can end with. Each carries the underlying
/// cause text where one exists.
#[derive(Debug)]
pub enum RunError {
    MissingArgument,
    InvalidArgument,
    Connection(String),
    NoPlayers,
    Menu(String),
    MenuOutOfRange,
    Playback(String),
    LoopControl(String),
}

/// The next action of the run: query the control bus, show the menu over
/// `count` players, apply the verb to the player at `index`, or stop.
#[derive(Debug)]
pub enum Directive {
    QueryPlayers { verb: Verb },
    ShowMenu { verb: Verb, count: usize },
    ApplyVerb { verb: Verb, index: usize },
    ExitSuccess,
    ExitFailure { error: RunError },
}

/// The verb a single argument token selects, if any.
pub open spec fn verb_of_token(tok: Seq<char>) -> Option<Verb> {
    if tok == "-p"@ || tok == "--play-pause"@ {
        Option::Some(Verb::PlayPause)
    } else if tok == "-l"@ || tok == "--loop"@ {
        Option::Some(Verb::CycleLoop)
    } else {
        Option::None
    }
}

/// What an invocation with the given argument list (program name first)
/// leads to: a bus query for a recognized verb, an immediate failure
/// otherwise.
pub open spec fn invocation_directive(args: Seq<String>) -> Directive {
    if args.len() < 2 {
        Directive::ExitFailure { error: RunError::MissingArgument }
    } else {
        match verb_of_token(args[1]@) {
            Option::Some(v) => Directive::QueryPlayers { verb: v },
            Option::None => Directive::ExitFailure { error: RunError::InvalidArgument },
        }
    }
}

/// What the enumeration outcome leads to: failure on a bus error or an empty
/// list, a direct dispatch to the only player when there is exactly one, and
/// the menu over all of them otherwise.
pub open spec fn players_directive(verb: Verb, outcome: Result<usize, String>) -> Directive {
    match outcome {
        Result::Ok(n) => if n == 0 {
            Directive::ExitFailure { error: RunError::NoPlayers }
        } else if n == 1 {
            Directive::ApplyVerb { verb: verb, index: 0 }
        } else {
            Directive::ShowMenu { verb: verb, count: n }
        },
        Result::Err(m) => Directive::ExitFailure { error: RunError::Connection(m) },
    }
}

/// What the menu's answer leads to: a dispatch to exactly the chosen index
/// when it lies within the list, failure when the menu failed or answered
/// out of range.
pub open spec fn choice_directive(verb: Verb, count: usize, outcome: Result<usize, String>) -> Directive {
    match outcome {
        Result::Ok(i) => if i < count {
            Directive::ApplyVerb { verb: verb, index: i }
        } else {
            Directive::ExitFailure { error: RunError::MenuOutOfRange }
        },
        Result::Err(m) => Directive::ExitFailure { error: RunError::Menu(m) },
    }
}

/// What the dispatch outcome leads to: success ends the run with status 0; a
/// transport error is fatal, attributed to the verb that was being applied.
pub open spec fn dispatch_directive(verb: Verb, outcome: Result<(), String>) -> Directive {
    match outcome {
        Result::Ok(u) => Directive::ExitSuccess,
        Result::Err(m) => Directive::ExitFailure {
            error: match verb {
                Verb::PlayPause => RunError::Playback(m),
                Verb::CycleLoop => RunError::LoopControl(m),
            },
        },
    }
}

/// The user-facing text of each error: the carried cause where there is one,
/// a fixed description otherwise.
pub open spec fn error_text(e: RunError) -> Seq<char> {
    match e {
        RunError::MissingArgument => "Didnt get any argument!"@,
        RunError::InvalidArgument => "Invalid argument!"@,
        RunError::NoPlayers => "No player detected!"@,
        RunError::MenuOutOfRange => "Invalid menu selection!"@,
        RunError::Connection(m) => m@,
        RunError::Menu(m) => m@,
        RunError::Playback(m) => m@,
        RunError::LoopControl(m) => m@,
    }
}

impl RunError {
    /// The user-facing text of this error.
    pub fn message(&self) -> (r: String)
        ensures
            r@ == error_text(*self),
    {
        match self {
            RunError::MissingArgument => "Didnt get any argument!".to_owned(),
            RunError::InvalidArgument => "Invalid argument!".to_owned(),
            RunError::NoPlayers => "No player detected!".to_owned(),
            RunError::MenuOutOfRange => "Invalid menu selection!".to_owned(),
            RunError::Connection(m) => m.clone(),
            RunError::Menu(m) => m.clone(),
            RunError::Playback(m) => m.clone(),
            RunError::LoopControl(m) => m.clone(),
        }
    }
}

/// Parse the argument list (program name first) into the requested verb:
/// an error when no token follows the program name or the token is not a
/// recognized verb.
pub fn parse_args(args: &Vec<String>) -> (r: Result<Verb, RunError>)
    ensures
        args@.len() < 2 ==> r == Result::<Verb, RunError>::Err(RunError::MissingArgument),
        args@.len() >= 2 ==> (match verb_of_token(args@[1]@) {
            Option::Some(v) => r == Result::<Verb, RunError>::Ok(v),
            Option::None => r == Result::<Verb, RunError>::Err(RunError::InvalidArgument),
        }),
{
    if args.len() < 2 {
        return Result::Err(RunError::MissingArgument);
    }
    let tok = &args[1];
    if *tok == "-p".to_owned() || *tok == "--play-pause".to_owned() {
        Result::Ok(Verb::PlayPause)
    } else if *tok == "-l".to_owned() || *tok == "--loop".to_owned() {
        Result::Ok(Verb::CycleLoop)
    } else {
        Result::Err(RunError::InvalidArgument)
    }
}

/// Decide the first action of a run from the raw argument list.
pub fn handle_invocation(args: &Vec<String>) -> (d: Directive)
    ensures
        d == invocation_directive(args@),
{
    match parse_args(args) {
        Result::Ok(v) => Directive::QueryPlayers { verb: v },
        Result::Err(e) => Directive::ExitFailure { error: e },
    }
}

/// Decide the action after the bus enumeration: `outcome` is the number of
/// players found, or the bus failure text.
pub fn handle_players(verb: Verb, outcome: Result<usize, String>) -> (d: Directive)
    ensures
        d == players_directive(verb, outcome),
{
    match outcome {
        Result::Ok(n) => if n == 0 {
            Directive::ExitFailure { error: RunError::NoPlayers }
        } else if n == 1 {
            Directive::ApplyVerb { verb, index: 0 }
        } else {
            Directive::ShowMenu { verb, count: n }
        },
        Result::Err(m) => Directive::ExitFailure { error: RunError::Connection(m) },
    }
}

/// Decide the action after the menu returned: `outcome` is the chosen index,
/// or the menu failure text; `count` is the number of lines that were shown.
pub fn handle_choice(verb: Verb, count: usize, outcome: Result<usize, String>) -> (d: Directive)
    ensures
        d == choice_directive(verb, count, outcome),
{
    match outcome {
        Result::Ok(i) => if i < count {
            Directive::ApplyVerb { verb, index: i }
        } else {
            Directive::ExitFailure { error: RunError::MenuOutOfRange }
        },
        Result::Err(m) => Directive::ExitFailure { error: RunError::Menu(m) },
    }
}

/// Decide the end of the run after the verb was applied.
pub fn handle_dispatch_result(verb: Verb, outcome: Result<(), String>) -> (d: Directive)
    ensures
        d == dispatch_directive(verb, outcome),
{
    match outcome {
        Result::Ok(_) => Directive::ExitSuccess,
        Result::Err(m) => Directive::ExitFailure {
            error: match verb {
                Verb::PlayPause => RunError::Playback(m),
                Verb::CycleLoop => RunError::LoopControl(m),
            },
        },
    }
}

/// The process exit status of a terminal directive: 0 for success, 1 for
/// every fatal condition.
pub fn exit_code(d: &Directive) -> (r: i32)
    requires
        d is ExitSuccess || d is ExitFailure,
    ensures
        d is ExitSuccess ==> r == 0,
        d is ExitFailure ==> r == 1,
{
    match d {
        Directive::ExitSuccess => 0,
        _ => 1,
    }
}

/// Law: an invocation without an argument token, or with an unrecognized
/// one, is fatal at once, and the control bus is queried only for a
/// recognized verb.
pub proof fn lemma_bad_invocation_is_fatal(args: Seq<String>)
    ensures
        args.len() < 2 ==> invocation_directive(args) == (Directive::ExitFailure {
            error: RunError::MissingArgument,
        }),
        args.len() >= 2 && verb_of_token(args[1]@) is None ==> invocation_directive(args)
            == (Directive::ExitFailure { error: RunError::InvalidArgument }),
        invocation_directive(args) is QueryPlayers <==> args.len() >= 2 && verb_of_token(args[1]@) is Some,
{
}

/// Law: no player found is fatal, exactly one player is acted on directly,
/// and the menu is shown exactly when two or more players were found.
pub proof fn lemma_player_count_routing(verb: Verb, n: usize)
    ensures
        n == 0 ==> players_directive(verb, Result::Ok(n)) == (Directive::ExitFailure {
            error: RunError::NoPlayers,
        }),
        n == 1 ==> players_directive(verb, Result::Ok(n)) == (Directive::ApplyVerb {
            verb: verb,
            index: 0,
        }),
        n >= 2 ==> players_directive(verb, Result::Ok(n)) == (Directive::ShowMenu {
            verb: verb,
            count: n,
        }),
        players_directive(verb, Result::Ok(n)) is ShowMenu <==> n >= 2,
{
}

/// Law: the single-player shortcut never reaches the menu, and once the verb
/// is applied the run ends successfully.
pub proof fn lemma_single_player_shortcut(verb: Verb)
    ensures
        players_directive(verb, Result::Ok(1)) == (Directive::ApplyVerb { verb: verb, index: 0 }),
        !(players_directive(verb, Result::Ok(1)) is ShowMenu),
        dispatch_directive(verb, Result::Ok(())) == Directive::ExitSuccess,
{
}

/// Law: a menu choice inside the list dispatches to exactly the chosen
/// index, so the player acted on is the player the chosen line described.
pub proof fn lemma_choice_keeps_index(verb: Verb, count: usize, i: usize)
    ensures
        i < count ==> choice_directive(verb, count, Result::Ok(i)) == (Directive::ApplyVerb {
            verb: verb,
            index: i,
        }),
        i >= count ==> choice_directive(verb, count, Result::Ok(i)) == (Directive::ExitFailure {
            error: RunError::MenuOutOfRange,
        }),
{
}

} // verus!
