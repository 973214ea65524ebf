use vstd::prelude::*;

use crate::command::{matching, matching_commands, CommandKind};

verus! {

/// Whether a command accepts `n` arguments: `find` and `match` want at least
/// one, `insert` and `delete` exactly two, the others take any.
pub open spec fn arity_ok(k: CommandKind, n: nat) -> bool {
    match k {
        CommandKind::Find | CommandKind::Match => n >= 1,
        CommandKind::Insert | CommandKind::Delete => n == 2,
        _ => true,
    }
}

pub fn accepts_arity(k: CommandKind, n: usize) -> (r: bool)
    ensures
        r == arity_ok(k, n as nat),
{
    match k {
        CommandKind::Find | CommandKind::Match => n >= 1,
        CommandKind::Insert | CommandKind::Delete => n == 2,
        _ => true,
    }
}

/// What the shell does with one event.
#[derive(Clone, Copy, Debug, PartialEq, Eq, Structural)]
pub enum Action {
    /// Nothing at all.
    Nothing,
    /// Report the first word as an unknown command.
    Unknown,
    /// Report the first word as ambiguous, with the commands it abbreviates.
    Ambiguous,
    /// Report the command's usage: its arguments do not fit.
    Usage(CommandKind),
    /// Run the command on the words after the first.
    Run(CommandKind),
    /// Input ended: finish the session with a newline.
    Finish,
}

/// Whether the read-eval loop goes on after an action.
#[derive(Clone, Copy, Debug, PartialEq, Eq, Structural)]
pub enum DispatchOutcome {
    Continue,
    Exit,
}

pub open spec fn outcome_of(a: Action) -> DispatchOutcome {
    match a {
        Action::Run(CommandKind::Quit) | Action::Finish => DispatchOutcome::Exit,
        _ => DispatchOutcome::Continue,
    }
}

pub fn outcome(a: Action) -> (r: DispatchOutcome)
    ensures
        r == outcome_of(a),
{
    match a {
        Action::Run(CommandKind::Quit) | Action::Finish => DispatchOutcome::Exit,
        _ => DispatchOutcome::Continue,
    }
}

/// The views of a sequence of strings.
pub open spec fn views(ws: Seq<String>) -> Seq<Seq<char>> {
    ws.map_values(|w: String| w@)
}

/// The action for a line split into words.
pub open spec fn action_for(words: Seq<Seq<char>>) -> Action {
    if words.len() == 0 {
        Action::Nothing
    } else {
        let m = matching(words[0]);
        if m.len() == 0 {
            Action::Unknown
        } else if m.len() > 1 {
            Action::Ambiguous
        } else if arity_ok(m[0], (words.len() - 1) as nat) {
            Action::Run(m[0])
        } else {
            Action::Usage(m[0])
        }
    }
}

/// Decides what to do with the words of one line.
pub fn decide(words: &Vec<String>) -> (r: Action)
    ensures
        r == action_for(views(words@)),
{
    if words.len() == 0 {
        return Action::Nothing;
    }
    let m = matching_commands(words[0].as_str());
    if m.len() == 0 {
        Action::Unknown
    } else if m.len() > 1 {
        Action::Ambiguous
    } else if accepts_arity(m[0], words.len() - 1) {
        Action::Run(m[0])
    } else {
        Action::Usage(m[0])
    }
}

/// The whitespace-separated words of a line.
pub uninterp spec fn words_of(s: Seq<char>) -> Seq<Seq<char>>;

/// Relies on `str::split_whitespace`: the words depend on the line alone, and
/// an empty line has none.
#[verifier::external_body]
fn split_words(s: &str) -> (r: Vec<String>)
    ensures
        views(r@) == words_of(s@),
        s@.len() == 0 ==> r@.len() == 0,
{
    s.split_whitespace().map(String::from).collect()
}

/// State of the read-eval loop; `Stopped` is final.
#[derive(Clone, Copy, Debug, PartialEq, Eq, Structural)]
pub enum LoopState {
    Running,
    Stopped,
}

/// One transition of the loop: a line read (`Some`) or the end of input
/// (`None`).
pub open spec fn step_spec(state: LoopState, line: Option<Seq<char>>) -> (LoopState, Action) {
    match state {
        LoopState::Stopped => (LoopState::Stopped, Action::Nothing),
        LoopState::Running => match line {
            None => (LoopState::Stopped, Action::Finish),
            Some(s) => if s.len() == 0 {
                (LoopState::Running, Action::Nothing)
            } else {
                let a = action_for(words_of(s));
                (
                    if outcome_of(a) is Exit {
                        LoopState::Stopped
                    } else {
                        LoopState::Running
                    },
                    a,
                )
            },
        },
    }
}

pub open spec fn line_view(line: Option<&str>) -> Option<Seq<char>> {
    match line {
        Some(s) => Some(s@),
        None => None,
    }
}

/// The result of one loop step: the next state, the action to perform, and
/// the words of the line.
pub struct Step {
    pub state: LoopState,
    pub action: Action,
    pub words: Vec<String>,
}

/// Takes the loop one step on a line read, or on the end of input (`None`).
pub fn step(state: LoopState, line: Option<&str>) -> (r: Step)
    ensures
        (r.state, r.action) == step_spec(state, line_view(line)),
        r.action is Run || r.action is Usage || r.action is Unknown || r.action is Ambiguous
            ==> (line matches Some(s) && views(r.words@) == words_of(s@)),
{
    match state {
        LoopState::Stopped => Step { state: LoopState::Stopped, action: Action::Nothing, words: Vec::new() },
        LoopState::Running => match line {
            None => Step { state: LoopState::Stopped, action: Action::Finish, words: Vec::new() },
            Some(s) => {
                if s.unicode_len() == 0 {
                    Step { state: LoopState::Running, action: Action::Nothing, words: Vec::new() }
                } else {
                    let words = split_words(s);
                    let a = decide(&words);
                    let next = match outcome(a) {
                        DispatchOutcome::Exit => LoopState::Stopped,
                        DispatchOutcome::Continue => LoopState::Running,
                    };
                    Step { state: next, action: a, words }
                }
            },
        },
    }
}

/// An empty line runs no command and leaves the loop where it was.
pub proof fn lemma_empty_line_is_inert(state: LoopState)
    ensures
        step_spec(state, Some(Seq::empty())) == (state, Action::Nothing),
{
}

/// A first word that abbreviates two or more commands runs none of them: the
/// loop keeps running and reports the ambiguity.
pub proof fn lemma_ambiguous_abbreviation_runs_nothing(line: Seq<char>)
    requires
        line.len() > 0,
        words_of(line).len() > 0,
        matching(words_of(line)[0]).len() >= 2,
    ensures
        step_spec(LoopState::Running, Some(line)) == (LoopState::Running, Action::Ambiguous),
{
}

/// A first word that abbreviates exactly one command selects that command.
pub proof fn lemma_unique_abbreviation_selects(line: Seq<char>)
    requires
        line.len() > 0,
        words_of(line).len() > 0,
        matching(words_of(line)[0]).len() == 1,
    ensures
        step_spec(LoopState::Running, Some(line)).1 == Action::Run(matching(words_of(line)[0])[0])
            || step_spec(LoopState::Running, Some(line)).1 == Action::Usage(
            matching(words_of(line)[0])[0],
        ),
{
}

/// Only the quit command and the end of input stop the loop; once stopped it
/// stays stopped.
pub proof fn lemma_only_quit_or_end_stops(state: LoopState, line: Option<Seq<char>>)
    ensures
        state is Stopped ==> step_spec(state, line).0 is Stopped,
        step_spec(state, line).0 is Stopped && state is Running ==> step_spec(state, line).1
            == Action::Run(CommandKind::Quit) || step_spec(state, line).1 == Action::Finish,
{
}

} // verus!
