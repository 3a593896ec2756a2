//! The decisions of a console session: whether colours are written, what
//! the words of the command line ask for, and what a line typed at the
//! prompt leads to.

use vstd::prelude::*;
use vstd::string::StringExecFns;
use crate::text::{lowercase, same_text};

verus! {

/// Whether colours are written: only to a terminal, and never where the
/// command line suppresses them.
pub fn color_enabled(is_terminal: bool, no_color: bool) -> (enabled: bool)
    ensures
        enabled == (is_terminal && !no_color),
{
    is_terminal && !no_color
}

/// The process exit code: 0 where the session ended as it should, 1 where
/// an error ended it.
pub fn exit_code(failed: bool) -> (code: i32)
    ensures
        code == if failed { 1i32 } else { 0i32 },
{
    if failed {
        1
    } else {
        0
    }
}

/// The words of a list, each as contracts see it.
pub open spec fn word_views(words: Seq<String>) -> Seq<Seq<char>> {
    words.map_values(|w: String| w@)
}

/// The words with one space between each two of them.
pub open spec fn joined(words: Seq<Seq<char>>) -> Seq<char>
    decreases words.len(),
{
    if words.len() == 0 {
        Seq::empty()
    } else if words.len() == 1 {
        words[0]
    } else {
        joined(words.drop_last()) + seq![' '] + words.last()
    }
}

/// Joins the words of a command with single spaces.
pub fn join_command(words: &Vec<String>) -> (command: String)
    ensures
        command@ == joined(word_views(words@)),
{
    let ghost views = word_views(words@);
    let mut command = String::new();
    for i in 0..words.len()
        invariant
            views == word_views(words@),
            command@ == joined(views.take(i as int)),
    {
        proof {
            assert(views.take(i + 1).drop_last() =~= views.take(i as int));
            assert(views.take(i + 1).last() == words[i as int]@);
        }
        if i > 0 {
            command.push(' ');
            assert(command@ =~= joined(views.take(i as int)) + seq![' ']);
        } else {
            assert(command@ + words[i as int]@ =~= words[i as int]@);
        }
        command.append(words[i].as_str());
    }
    proof {
        assert(views.take(words.len() as int) =~= views);
    }
    command
}

/// What a session does.
#[derive(Clone, Debug)]
pub enum Mode {
    /// Commands are read from a prompt until the user leaves.
    Interactive,
    /// One command is sent, and its response printed.
    OneShot { command: String },
}

/// A `Mode` as contracts see it.
pub enum ModeView {
    Interactive,
    OneShot { command: Seq<char> },
}

impl View for Mode {
    type V = ModeView;

    open spec fn view(&self) -> ModeView {
        match self {
            Mode::Interactive => ModeView::Interactive,
            Mode::OneShot { command } => ModeView::OneShot { command: command@ },
        }
    }
}

/// Why a session cannot start.
#[derive(Clone, Copy, Debug, PartialEq, Eq, Structural)]
pub enum SessionError {
    /// The words of the command line make up no command.
    EmptyCommand,
}

impl SessionError {
    /// The sentence that tells a reader of the error.
    pub fn message(&self) -> (text: &'static str)
        ensures
            text@ == "empty command"@,
    {
        "empty command"
    }
}

/// What the words of the command line ask for: a prompt where there are
/// none, and else the one command that they make up, which must not be
/// empty.
pub open spec fn mode_of(words: Seq<Seq<char>>) -> Result<ModeView, SessionError> {
    if words.len() == 0 {
        Ok(ModeView::Interactive)
    } else if joined(words).len() == 0 {
        Err(SessionError::EmptyCommand)
    } else {
        Ok(ModeView::OneShot { command: joined(words) })
    }
}

/// The mode of a session as contracts see it.
pub open spec fn mode_view(mode: Result<Mode, SessionError>) -> Result<ModeView, SessionError> {
    match mode {
        Ok(m) => Ok(m@),
        Err(e) => Err(e),
    }
}

/// Decides from the words of the command line what the session does.
pub fn session_mode(words: &Vec<String>) -> (mode: Result<Mode, SessionError>)
    ensures
        mode_view(mode) == mode_of(word_views(words@)),
{
    if words.len() == 0 {
        assert(word_views(words@).len() == 0);
        return Ok(Mode::Interactive);
    }
    assert(word_views(words@).len() > 0);
    let command = join_command(words);
    if command.as_str().is_empty() {
        Err(SessionError::EmptyCommand)
    } else {
        Ok(Mode::OneShot { command })
    }
}

/// Whether a text in lower case is one of the words that end a session.
pub open spec fn quit_word(lowered: Seq<char>) -> bool {
    lowered == "exit"@ || lowered == "e"@ || lowered == "quit"@ || lowered == "q"@
}

/// Whether a text in lower case is one of the words that end a session:
/// `exit`, `e`, `quit` or `q`.
pub fn is_quit_word(lowered: &str) -> (quit: bool)
    ensures
        quit == quit_word(lowered@),
{
    same_text(lowered, "exit") || same_text(lowered, "e") || same_text(lowered, "quit")
        || same_text(lowered, "q")
}

/// Whether a line typed at the prompt ends the session: it does where its
/// lower-case form is one of the words that do.
pub fn is_quit(line: &str) -> (quit: bool)
    ensures
        quit == quit_word(lowercase(line@)),
{
    let lowered = line.to_lowercase();
    is_quit_word(lowered.as_str())
}

/// What came of reading a line at the prompt.
#[derive(Clone, Debug)]
pub enum Input {
    /// The user typed a line.
    Line { text: String },
    /// The user interrupted the prompt.
    Interrupted,
    /// The input ended.
    Eof,
    /// Reading failed.
    Failed,
}

/// An `Input` as contracts see it.
pub enum InputView {
    Line { text: Seq<char> },
    Interrupted,
    Eof,
    Failed,
}

impl View for Input {
    type V = InputView;

    open spec fn view(&self) -> InputView {
        match self {
            Input::Line { text } => InputView::Line { text: text@ },
            Input::Interrupted => InputView::Interrupted,
            Input::Eof => InputView::Eof,
            Input::Failed => InputView::Failed,
        }
    }
}

/// What a session does next.
#[derive(Clone, Debug)]
pub enum Step {
    /// The command is sent, remembered in the history, and its response
    /// printed.
    Send { command: String },
    /// The session ends as it should.
    Leave,
    /// The session ends with an error.
    Abort,
}

/// A `Step` as contracts see it.
pub enum StepView {
    Send { command: Seq<char> },
    Leave,
    Abort,
}

impl View for Step {
    type V = StepView;

    open spec fn view(&self) -> StepView {
        match self {
            Step::Send { command } => StepView::Send { command: command@ },
            Step::Leave => StepView::Leave,
            Step::Abort => StepView::Abort,
        }
    }
}

/// What follows from an input: a line is sent as it was typed, unless it
/// is a word that ends the session; an interrupt or the end of the input
/// ends the session as it should; a failure ends it with an error.
pub open spec fn step_of(input: InputView) -> StepView {
    match input {
        InputView::Line { text } => if quit_word(lowercase(text)) {
            StepView::Leave
        } else {
            StepView::Send { command: text }
        },
        InputView::Interrupted => StepView::Leave,
        InputView::Eof => StepView::Leave,
        InputView::Failed => StepView::Abort,
    }
}

/// Decides what a session does with what came of reading a line.
pub fn next_step(input: &Input) -> (step: Step)
    ensures
        step@ == step_of(input@),
{
    match input {
        Input::Line { text } => {
            if is_quit(text.as_str()) {
                Step::Leave
            } else {
                Step::Send { command: text.clone() }
            }
        },
        Input::Interrupted => Step::Leave,
        Input::Eof => Step::Leave,
        Input::Failed => Step::Abort,
    }
}

} // verus!
