//! The evaluation session: the interpreter's state across submissions.

use crate::engine::add_root;
use crate::engine::builtin_importer;
use crate::engine::describe_error;
use crate::engine::error_text;
use crate::engine::importer_roots;
use crate::engine::new_context;
use crate::engine::new_importer;
use crate::engine::render_result;
use crate::engine::result_markup;
use crate::engine::search_roots;
use crate::engine::terminal_width;
use crate::resolution::ModuleResolutionChain;
use numbat::Context;
use numbat::InterpreterResult;
use numbat::NumbatError;
use numbat::Statement;
use vstd::prelude::*;

verus! {

/// Who issued a source text. The engine uses it in its diagnostics only.
#[derive(Debug, Clone, Copy, PartialEq, Eq, Structural)]
pub enum Provenance {
    /// Issued by the system itself, as the load of the prelude is.
    Internal,
    /// Issued by the user.
    Text,
}

/// What one submission came to.
pub enum EvaluationOutcome<'a> {
    /// The text was parsed, checked and run.
    Evaluated {
        /// Every statement of the text, imports inlined, in order.
        statements: Vec<Statement<'a>>,
        /// What running them gave.
        result: InterpreterResult,
    },
    /// The engine refused the text or failed while running it.
    Failed {
        /// The engine's error, as it reported it.
        error: NumbatError,
    },
}

/// Why a session could not be started.
#[derive(Debug, Clone, PartialEq, Eq)]
pub struct StartupError {
    /// The engine's message on the failed load of the prelude.
    pub message: String,
}

/// The statement that every new session runs first.
pub const PRELUDE_IMPORT: &'static str = "use prelude";

/// A text on its way to the engine, with the mark of who issued it.
#[derive(Debug, Clone, Copy, PartialEq, Eq)]
pub struct Submission<'a> {
    /// The text, as it was given.
    pub text: &'a str,
    /// Who issued it.
    pub provenance: Provenance,
}

/// What starting a session comes to, given how the load of the prelude
/// went: the session where the prelude was evaluated, the engine's message
/// where it failed.
pub open spec fn startup<'a>(session: Session, loaded: EvaluationOutcome<'a>) -> Result<
    Session,
    Seq<char>,
> {
    match loaded {
        EvaluationOutcome::Evaluated { .. } => Ok(session),
        EvaluationOutcome::Failed { error } => Err(error_text(error)),
    }
}

/// A startup result, as the contracts speak of it.
pub open spec fn started_as(started: Result<Session, StartupError>) -> Result<
    Session,
    Seq<char>,
> {
    match started {
        Ok(session) => Ok(session),
        Err(refusal) => Err(refusal.message@),
    }
}

/// Builds an interpreter state that resolves modules in the given
/// directories, in their order, before the embedded ones, and that knows the
/// given terminal width.
pub fn make_fresh_context(directories: &Vec<String>, width: Option<usize>) -> (context: Context)
    ensures
        search_roots(context) == directories.deep_view(),
        terminal_width(context) == width,
{
    let mut fs_importer = new_importer();
    let mut i: usize = 0;
    while i < directories.len()
        invariant
            i <= directories.len(),
            importer_roots(fs_importer) == directories.deep_view().take(i as int),
        decreases directories.len() - i,
    {
        add_root(&mut fs_importer, directories[i].as_str());
        assert(directories.deep_view().take(i + 1) =~= directories.deep_view().take(
            i as int,
        ).push(directories[i as int]@));
        i += 1;
    }
    assert(directories.deep_view().take(directories.len() as int) =~= directories.deep_view());
    let mut context = new_context(fs_importer, builtin_importer());
    context.set_terminal_width(width);
    context
}

/// The interpreter's state together with the chain it resolves modules with.
///
/// The chain is fixed when the session is made. The engine runs a text
/// against the state through `engine`, which takes the session by unique
/// reference: two submissions cannot run at once.
pub struct Session {
    chain: ModuleResolutionChain,
    context: Context,
}

/// A session that is being started: its state is built, and the prelude is
/// still to be loaded into it. It takes no text from the user.
pub struct Startup {
    session: Session,
}

impl Startup {
    /// The session that is being started.
    pub closed spec fn session(self) -> Session {
        self.session
    }

    /// The text that the engine is to run first: the import of the prelude,
    /// as the system's own.
    pub fn prelude(&self) -> (first: Submission<'static>)
        ensures
            first.text@ == PRELUDE_IMPORT@,
            first.provenance == Provenance::Internal,
    {
        Submission { text: PRELUDE_IMPORT, provenance: Provenance::Internal }
    }

    /// The engine's state, for the engine to load the prelude into.
    pub fn engine(&mut self) -> (context: &mut Context)
        ensures
            *context == old(self).session().state(),
            final(self).session().state() == *final(context),
            final(self).session().roots() == old(self).session().roots(),
    {
        &mut self.session.context
    }

    /// Concludes the start from the outcome of the load of the prelude: the
    /// session where the prelude was evaluated; no session, and the
    /// engine's message, where the load failed.
    pub fn conclude(self, loaded: &EvaluationOutcome<'_>) -> (started: Result<
        Session,
        StartupError,
    >)
        ensures
            started_as(started) == startup(self.session(), *loaded),
    {
        match loaded.failure() {
            None => Ok(self.session),
            Some(message) => Err(StartupError { message }),
        }
    }
}

impl Session {
    /// The engine resolves imports in the directories of the session's own
    /// chain, in the chain's order.
    pub closed spec fn wf(self) -> bool {
        search_roots(self.context) == self.chain@
    }

    /// The directories of the session's chain, first priority first.
    pub closed spec fn roots(self) -> Seq<Seq<char>> {
        self.chain@
    }

    /// The terminal width that the session presents with.
    pub closed spec fn width(self) -> Option<usize> {
        terminal_width(self.context)
    }

    /// The engine's state.
    pub closed spec fn state(self) -> Context {
        self.context
    }

    /// What the engine's renderer makes of a result of this session.
    pub closed spec fn markup(
        self,
        result: InterpreterResult,
        subject: Option<Statement<'_>>,
        with_type_info: bool,
        with_equal_sign: bool,
    ) -> Seq<char> {
        result_markup(result, subject, self.context, with_type_info, with_equal_sign)
    }

    /// Begins a session on the given chain: builds the engine's state, with
    /// the chain's directories and the given width. The prelude is still to
    /// be loaded: see `Startup`.
    pub fn new(chain: ModuleResolutionChain, width: Option<usize>) -> (startup: Startup)
        ensures
            startup.session().wf(),
            startup.session().roots() == chain@,
            startup.session().width() == width,
    {
        let context = make_fresh_context(chain.directories(), width);
        Startup { session: Session { chain, context } }
    }

    /// The chain that the session resolves modules with.
    pub fn chain(&self) -> (chain: &ModuleResolutionChain)
        ensures
            chain@ == self.roots(),
    {
        &self.chain
    }

    /// Makes ready a text for the engine: the text and its provenance go on
    /// as they came.
    pub fn submit<'a>(&self, text: &'a str, provenance: Provenance) -> (submission: Submission<
        'a,
    >)
        ensures
            submission.text@ == text@,
            submission.provenance == provenance,
    {
        Submission { text, provenance }
    }

    /// The engine's state, for the engine to run a submission against.
    pub fn engine(&mut self) -> (context: &mut Context)
        ensures
            *context == old(self).state(),
            final(self).state() == *final(context),
            final(self).roots() == old(self).roots(),
    {
        &mut self.context
    }

    /// Renders a result of this session with the engine's markup renderer.
    pub fn render(
        &self,
        result: &InterpreterResult,
        subject: Option<&Statement<'_>>,
        with_type_info: bool,
        with_equal_sign: bool,
    ) -> (text: String)
        ensures
            text@ == self.markup(
                *result,
                match subject {
                    Some(statement) => Some(*statement),
                    None => None,
                },
                with_type_info,
                with_equal_sign,
            ),
    {
        render_result(result, subject, &self.context, with_type_info, with_equal_sign)
    }
}

impl<'a> EvaluationOutcome<'a> {
    /// The message of a failed submission; nothing for one that was
    /// evaluated.
    pub fn failure(&self) -> (message: Option<String>)
        ensures
            match *self {
                EvaluationOutcome::Evaluated { .. } => message is None,
                EvaluationOutcome::Failed { error } => message.deep_view() == Some(
                    error_text(error),
                ),
            },
    {
        match self {
            EvaluationOutcome::Evaluated { .. } => None,
            EvaluationOutcome::Failed { error } => Some(describe_error(error)),
        }
    }
}

} // verus!
