//! The orchestrator: from the user's text to what the display shows, one
//! submission at a time.

use crate::engine::describe_error;
use crate::engine::error_text;
use crate::engine::join_lines;
use crate::engine::print_statement;
use crate::engine::statement_text;
use crate::session::EvaluationOutcome;
use crate::session::Provenance;
use crate::session::Session;
use crate::session::Submission;
use numbat::Context;
use crate::text::blank;
use crate::text::is_blank;
use crate::text::joined;
use numbat::Statement;
use vstd::prelude::*;

verus! {

/// The three channels of the display.
#[derive(Debug, Clone, PartialEq, Eq)]
pub struct Display {
    /// The statements of the last evaluated submission, as the engine
    /// prints them.
    pub echo: String,
    /// The rendered result of the last evaluated submission.
    pub result: String,
    /// The message of the last submission, if that one failed.
    pub error: Option<String>,
}

/// The channels as plain text.
pub ghost struct DisplayView {
    pub echo: Seq<char>,
    pub result: Seq<char>,
    pub error: Option<Seq<char>>,
}

impl View for Display {
    type V = DisplayView;

    open spec fn view(&self) -> DisplayView {
        DisplayView { echo: self.echo@, result: self.result@, error: self.error.deep_view() }
    }
}

/// What one submission answers.
#[derive(Debug, Clone, PartialEq, Eq)]
pub enum Response {
    /// The text was blank: nothing was done.
    Ignored,
    /// The text was evaluated.
    Shown {
        /// The parsed statements, one per line.
        echo: String,
        /// The rendered result.
        result: String,
    },
    /// The engine reported an error.
    Failed {
        /// The error's message.
        error: String,
    },
}

/// A response as plain text.
pub ghost enum ResponseView {
    Ignored,
    Shown { echo: Seq<char>, result: Seq<char> },
    Failed { error: Seq<char> },
}

impl View for Response {
    type V = ResponseView;

    open spec fn view(&self) -> ResponseView {
        match *self {
            Response::Ignored => ResponseView::Ignored,
            Response::Shown { echo, result } => ResponseView::Shown {
                echo: echo@,
                result: result@,
            },
            Response::Failed { error } => ResponseView::Failed { error: error@ },
        }
    }
}

/// The display after a response has been shown on it.
///
/// An evaluated submission replaces the echo and the result and clears the
/// error. A failed one sets the error and leaves the echo and the result of
/// the last evaluated submission in place. An ignored one changes nothing.
pub open spec fn display_after(before: DisplayView, response: ResponseView) -> DisplayView {
    match response {
        ResponseView::Ignored => before,
        ResponseView::Shown { echo, result } => DisplayView { echo, result, error: None },
        ResponseView::Failed { error } => DisplayView {
            echo: before.echo,
            result: before.result,
            error: Some(error),
        },
    }
}

/// The printed form of each statement, in the statements' order.
pub open spec fn printed<'a>(statements: Seq<Statement<'a>>) -> Seq<Seq<char>> {
    Seq::new(statements.len(), |i: int| statement_text(statements[i]))
}

/// The echo of a submission: the printed statements, one per line.
pub open spec fn echo_text<'a>(statements: Seq<Statement<'a>>) -> Seq<char> {
    joined(printed(statements), seq!['\n'])
}

/// The statement that a result is rendered for: the last one.
pub open spec fn subject<'a>(statements: Seq<Statement<'a>>) -> Option<Statement<'a>> {
    if statements.len() == 0 {
        None
    } else {
        Some(statements.last())
    }
}

/// The response to an outcome of the session: for an evaluated text its
/// echo and its result, rendered for the last statement with both of the
/// renderer's flags on; for a failed one the error's message.
pub open spec fn rendering<'a>(session: Session, outcome: EvaluationOutcome<'a>) -> ResponseView {
    match outcome {
        EvaluationOutcome::Evaluated { statements, result } => ResponseView::Shown {
            echo: echo_text(statements@),
            result: session.markup(result, subject(statements@), true, true),
        },
        EvaluationOutcome::Failed { error } => ResponseView::Failed { error: error_text(error) },
    }
}

/// After a submission that was evaluated, a submission that fails leaves
/// the echo and the result as the first one set them: only the error
/// channel changes.
pub proof fn failure_keeps_the_last_result(
    before: DisplayView,
    echo: Seq<char>,
    result: Seq<char>,
    error: Seq<char>,
)
    ensures
        display_after(
            display_after(before, ResponseView::Shown { echo, result }),
            ResponseView::Failed { error },
        ) == (DisplayView { echo, result, error: Some(error) }),
{
}

impl Display {
    /// A display that shows nothing yet.
    pub fn new() -> (display: Display)
        ensures
            display@ == (DisplayView { echo: Seq::empty(), result: Seq::empty(), error: None }),
    {
        Display { echo: String::new(), result: String::new(), error: None }
    }

    /// Shows a response.
    pub fn show(&mut self, response: &Response)
        ensures
            final(self)@ == display_after(old(self)@, response@),
    {
        match response {
            Response::Ignored => {},
            Response::Shown { echo, result } => {
                self.echo = echo.clone();
                self.result = result.clone();
                self.error = None;
            },
            Response::Failed { error } => {
                self.error = Some(error.clone());
            },
        }
    }
}

/// Prints the statements, one per line, in their order.
pub fn echo(statements: &Vec<Statement<'_>>) -> (text: String)
    ensures
        text@ == echo_text(statements@),
{
    let mut lines: Vec<String> = Vec::new();
    let mut i: usize = 0;
    while i < statements.len()
        invariant
            i <= statements.len(),
            lines.deep_view() == printed(statements@).take(i as int),
        decreases statements.len() - i,
    {
        let ghost before = lines.deep_view();
        lines.push(print_statement(&statements[i]));
        assert(lines.deep_view() =~= before.push(statement_text(statements@[i as int])));
        assert(lines.deep_view() =~= printed(statements@).take(i + 1));
        i += 1;
    }
    assert(printed(statements@).take(statements.len() as int) =~= printed(statements@));
    proof {
        reveal_strlit("\n");
    }
    assert("\n"@ =~= seq!['\n']);
    join_lines(&lines, "\n")
}

/// Turns an outcome of the session into the response that is shown for it.
pub fn render(session: &Session, outcome: &EvaluationOutcome<'_>) -> (response: Response)
    ensures
        response@ == rendering(*session, *outcome),
{
    match outcome {
        EvaluationOutcome::Evaluated { statements, result } => {
            let last = if statements.len() == 0 {
                None
            } else {
                Some(&statements[statements.len() - 1])
            };
            Response::Shown {
                echo: echo(statements),
                result: session.render(result, last, true, true),
            }
        },
        EvaluationOutcome::Failed { error } => Response::Failed { error: describe_error(error) },
    }
}

/// What is to be done with a text that the user sent.
#[derive(Debug, Clone, Copy, PartialEq, Eq)]
pub enum Action<'a> {
    /// Nothing: the text is blank, and the engine is not asked.
    Ignore,
    /// The engine is to run this submission.
    Submit(Submission<'a>),
}

/// The one entry point to a session, and the display that it feeds.
///
/// `on_submit` decides what is to be done with a text, the engine runs what
/// is to be run against `engine`, and `on_outcome` takes what the engine
/// answered. The engine's state is reached by unique reference only: one
/// submission runs to its end before the next can begin.
pub struct Orchestrator {
    session: Session,
    display: Display,
}

impl Orchestrator {
    /// What the display shows.
    pub closed spec fn shown(self) -> DisplayView {
        self.display@
    }

    /// The session that the submissions run against.
    pub closed spec fn state(self) -> Session {
        self.session
    }

    /// An orchestrator for the session, with an empty display.
    pub fn new(session: Session) -> (orchestrator: Orchestrator)
        ensures
            orchestrator.state() == session,
            orchestrator.shown() == (DisplayView {
                echo: Seq::empty(),
                result: Seq::empty(),
                error: None,
            }),
    {
        Orchestrator { session, display: Display::new() }
    }

    /// What the display shows.
    pub fn display(&self) -> (display: &Display)
        ensures
            display@ == self.shown(),
    {
        &self.display
    }

    /// The session that the submissions run against.
    pub fn session(&self) -> (session: &Session)
        ensures
            *session == self.state(),
    {
        &self.session
    }

    /// Takes one text from the user and decides what is to be done with it.
    ///
    /// A blank text is ignored: the engine is not to be asked, and nothing
    /// changes. Any other text is to be run by the engine, as it came and as
    /// the user's.
    pub fn on_submit<'a>(&self, text: &'a str) -> (action: Action<'a>)
        ensures
            is_blank(text@) ==> action is Ignore,
            !is_blank(text@) ==> (action matches Action::Submit(submission) && submission.text@
                == text@ && submission.provenance == Provenance::Text),
    {
        if blank(text) {
            Action::Ignore
        } else {
            Action::Submit(self.session.submit(text, Provenance::Text))
        }
    }

    /// The engine's state, for the engine to run a submission against. The
    /// display and the session's chain are out of the engine's reach.
    pub fn engine(&mut self) -> (context: &mut Context)
        ensures
            *context == old(self).state().state(),
            final(self).state().state() == *final(context),
            final(self).state().roots() == old(self).state().roots(),
            final(self).shown() == old(self).shown(),
    {
        self.session.engine()
    }

    /// Takes what the engine answered to a submission: renders it, shows
    /// the response on the display and hands it back. The session is left as
    /// the engine left it.
    pub fn on_outcome(&mut self, outcome: &EvaluationOutcome<'_>) -> (response: Response)
        ensures
            response@ == rendering(old(self).state(), *outcome),
            final(self).shown() == display_after(old(self).shown(), response@),
            final(self).state() == old(self).state(),
    {
        let response = render(&self.session, outcome);
        self.display.show(&response);
        response
    }
}

} // verus!
