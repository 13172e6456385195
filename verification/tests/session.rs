use numbox::orchestrator::render;
use numbox::orchestrator::Response;
use numbox::resolution::ModuleResolutionChain;
use numbox::session::make_fresh_context;
use numbox::session::EvaluationOutcome;
use numbox::session::Provenance;
use numbox::session::Session;
use numbox::session::StartupError;
use numbox::session::Submission;
use numbox::session::PRELUDE_IMPORT;
use std::io::Write;
use std::path::Path;
use tempfile::NamedTempFile;
use tempfile::TempDir;

fn module_file(directory: &Path, name: &str, source: &str) -> NamedTempFile {
    let mut file = tempfile::Builder::new()
        .prefix(name)
        .suffix(".nbt")
        .rand_bytes(0)
        .tempfile_in(directory)
        .unwrap();
    file.write_all(source.as_bytes()).unwrap();
    file.flush().unwrap();
    file
}

fn text_of(directory: &TempDir) -> String {
    directory.path().to_str().unwrap().to_string()
}


fn run<'a>(context: &mut numbat::Context, submission: Submission<'a>) -> EvaluationOutcome<'a> {
    let source = match submission.provenance {
        Provenance::Internal => numbat::resolver::CodeSource::Internal,
        Provenance::Text => numbat::resolver::CodeSource::Text,
    };
    match context.interpret(submission.text, source) {
        Ok((statements, result)) => EvaluationOutcome::Evaluated { statements, result },
        Err(error) => EvaluationOutcome::Failed { error: *error },
    }
}

fn start(chain: ModuleResolutionChain, width: Option<usize>) -> Result<Session, StartupError> {
    let mut startup = Session::new(chain, width);
    let first = startup.prelude();
    let loaded = run(startup.engine(), first);
    startup.conclude(&loaded)
}

fn fresh() -> Session {
    start(ModuleResolutionChain::new(vec![]), None).unwrap()
}

fn submit<'a>(session: &mut Session, text: &'a str, provenance: Provenance) -> EvaluationOutcome<'a> {
    let submission = session.submit(text, provenance);
    run(session.engine(), submission)
}

fn shown(session: &mut Session, text: &str) -> Response {
    let outcome = submit(session, text, Provenance::Text);
    render(session, &outcome)
}

fn result_of(session: &mut Session, text: &str) -> String {
    match shown(session, text) {
        Response::Shown { result, .. } => result,
        other => panic!("{:?} gave {:?}", text, other),
    }
}

fn error_of(session: &mut Session, text: &str) -> String {
    match shown(session, text) {
        Response::Failed { error } => error,
        other => panic!("{:?} gave {:?}", text, other),
    }
}

#[test]
fn the_prelude_import_is_the_engines_statement() {
    assert_eq!(PRELUDE_IMPORT, "use prelude");
}

#[test]
fn a_new_session_has_the_prelude() {
    let mut session = fresh();
    assert_eq!(result_of(&mut session, "sqrt(16)"), "    = 4\n");
    assert_eq!(result_of(&mut session, "2 km -> m"), "    = 2000 m    [Length]\n");
}

#[test]
fn a_new_session_keeps_its_chain() {
    let directories = vec!["/one".to_string(), "/two".to_string()];
    let session = start(ModuleResolutionChain::new(directories.clone()), Some(80)).unwrap();
    assert_eq!(session.chain().directories(), &directories);
}

#[test]
fn a_binding_is_visible_to_the_next_submission() {
    let mut session = fresh();
    assert_eq!(result_of(&mut session, "let x = 5"), "");
    assert_eq!(result_of(&mut session, "x + 1"), "    = 6\n");
}

#[test]
fn a_later_definition_supersedes_an_earlier_one() {
    let mut session = fresh();
    assert_eq!(result_of(&mut session, "let x = 5"), "");
    assert_eq!(result_of(&mut session, "let x = 10"), "");
    assert_eq!(result_of(&mut session, "x"), "    = 10\n");
}

#[test]
fn units_and_functions_accumulate_too() {
    let mut session = fresh();
    result_of(&mut session, "unit thing");
    result_of(&mut session, "fn twice(v) = 2 v");
    assert_eq!(result_of(&mut session, "twice(3 thing)"), "    = 6 thing    [Thing]\n");
}

#[test]
fn a_failed_submission_leaves_the_session_usable() {
    let mut session = fresh();
    result_of(&mut session, "let x = 5");
    assert_eq!(error_of(&mut session, "1 / 0"), "Division by zero");
    assert_eq!(
        error_of(&mut session, "1 +"),
        "Expected one of: number, identifier, parenthesized expression, struct instantiation, list"
    );
    assert_eq!(result_of(&mut session, "x + 1"), "    = 6\n");
}

#[test]
fn a_failed_definition_defines_nothing() {
    let mut session = fresh();
    assert_eq!(error_of(&mut session, "let q = 1 / 0"), "Division by zero");
    assert_eq!(result_of(&mut session, "let q = 3"), "");
    assert_eq!(result_of(&mut session, "q"), "    = 3\n");
}

#[test]
fn a_missing_module_is_an_engine_error() {
    let mut session = fresh();
    assert_eq!(error_of(&mut session, "use no_such_module"), "Unknown module 'no_such_module'.");
    assert_eq!(result_of(&mut session, "1 + 1"), "    = 2\n");
}

#[test]
fn failure_gives_the_message_of_a_failed_outcome_only() {
    let mut session = fresh();
    let failed = submit(&mut session, "1 / 0", Provenance::Text);
    assert!(matches!(failed, EvaluationOutcome::Failed { .. }));
    assert_eq!(failed.failure(), Some("Division by zero".to_string()));
    let evaluated = submit(&mut session, "1 / 2", Provenance::Text);
    assert!(matches!(evaluated, EvaluationOutcome::Evaluated { .. }));
    assert_eq!(evaluated.failure(), None);
}

#[test]
fn an_outcome_holds_every_statement_in_order() {
    let mut session = fresh();
    match submit(&mut session, "let a = 1\nlet b = 2\na + b", Provenance::Text) {
        EvaluationOutcome::Evaluated { statements, .. } => assert_eq!(statements.len(), 3),
        EvaluationOutcome::Failed { .. } => panic!("the text is well formed"),
    }
}

#[test]
fn internal_text_is_run_like_the_users() {
    let mut session = fresh();
    let outcome = submit(&mut session, "let hidden = 7", Provenance::Internal);
    assert_eq!(outcome.failure(), None);
    assert_eq!(result_of(&mut session, "hidden"), "    = 7\n");
}

#[test]
fn the_session_imports_from_the_directories_of_its_chain() {
    let directory = tempfile::tempdir().unwrap();
    let _file = module_file(directory.path(), "local", "let marker = 42\n");
    let chain = ModuleResolutionChain::new(vec![text_of(&directory)]);
    let mut session = start(chain, None).unwrap();
    assert_eq!(result_of(&mut session, "use local"), "");
    assert_eq!(result_of(&mut session, "marker"), "    = 42\n");
    assert_eq!(
        error_of(&mut fresh(), "use local"),
        "Unknown module 'local'."
    );
}

#[test]
fn the_session_prefers_a_directory_to_the_catalog() {
    let directory = tempfile::tempdir().unwrap();
    let _file = module_file(directory.path(), "prelude", "let only_here = 7\n");
    let chain = ModuleResolutionChain::new(vec![text_of(&directory)]);
    let mut session = start(chain, None).unwrap();
    assert_eq!(result_of(&mut session, "only_here"), "    = 7\n");
    assert!(matches!(shown(&mut session, "sqrt(16)"), Response::Failed { .. }));
}

#[test]
fn the_session_asks_the_directories_in_the_chains_order() {
    let first = tempfile::tempdir().unwrap();
    let second = tempfile::tempdir().unwrap();
    let _in_first = module_file(first.path(), "shared", "let origin = 1\n");
    let _in_second = module_file(second.path(), "shared", "let origin = 2\n");
    let chain = ModuleResolutionChain::new(vec![text_of(&second), text_of(&first)]);
    let mut session = start(chain, None).unwrap();
    result_of(&mut session, "use shared");
    assert_eq!(result_of(&mut session, "origin"), "    = 2\n");
}

#[test]
fn a_prelude_that_does_not_load_gives_no_session() {
    let directory = tempfile::tempdir().unwrap();
    let _file = module_file(directory.path(), "prelude", "let broken = 1 / 0\n");
    let chain = ModuleResolutionChain::new(vec![text_of(&directory)]);
    match start(chain, None) {
        Ok(_) => panic!("the prelude cannot have loaded"),
        Err(error) => assert_eq!(error.message, "Division by zero"),
    }
}

#[test]
fn a_fresh_context_resolves_in_the_given_directories() {
    let directory = tempfile::tempdir().unwrap();
    let _file = module_file(directory.path(), "local", "let marker = 42\n");
    let context = make_fresh_context(&vec![text_of(&directory)], None);
    let listed: Vec<String> = context.list_modules().map(|name| name.to_string()).collect();
    assert!(listed.contains(&"local".to_string()));
    assert!(listed.contains(&"prelude".to_string()));
    let bare = make_fresh_context(&vec![], None);
    assert!(!bare.list_modules().any(|name| name == "local"));
}

#[test]
fn a_fresh_context_knows_the_terminal_width() {
    let environment = |width: Option<usize>| {
        let mut context = make_fresh_context(&vec![], width);
        assert!(context.interpret("use prelude", numbat::resolver::CodeSource::Internal).is_ok());
        context.print_environment().to_string()
    };
    let sixty = environment(Some(60));
    let eighty = environment(Some(80));
    let wide = environment(Some(160));
    assert!(sixty.lines().count() > eighty.lines().count());
    assert!(eighty.lines().count() > wide.lines().count());
    assert_eq!(environment(None), eighty);
}

#[test]
fn the_first_submission_is_the_prelude_as_the_systems_own() {
    let startup = Session::new(ModuleResolutionChain::new(vec![]), None);
    assert_eq!(
        startup.prelude(),
        Submission { text: "use prelude", provenance: Provenance::Internal }
    );
}

#[test]
fn submit_hands_text_and_provenance_on_as_they_came() {
    let session = fresh();
    assert_eq!(
        session.submit(" let x = 1 ", Provenance::Text),
        Submission { text: " let x = 1 ", provenance: Provenance::Text }
    );
    assert_eq!(
        session.submit("use prelude", Provenance::Internal),
        Submission { text: "use prelude", provenance: Provenance::Internal }
    );
    assert_eq!(
        session.submit("", Provenance::Text),
        Submission { text: "", provenance: Provenance::Text }
    );
}

#[test]
fn conclude_keeps_the_session_after_an_evaluated_load() {
    let mut startup = Session::new(ModuleResolutionChain::new(vec![]), None);
    let first = startup.prelude();
    let loaded = run(startup.engine(), first);
    let mut started = startup.conclude(&loaded).unwrap();
    assert_eq!(result_of(&mut started, "1 + 1"), "    = 2\n");
}

#[test]
fn conclude_gives_no_session_after_a_failed_load() {
    let mut startup = Session::new(ModuleResolutionChain::new(vec![]), None);
    let loaded = run(
        startup.engine(),
        Submission { text: "use no_such_module", provenance: Provenance::Internal },
    );
    match startup.conclude(&loaded) {
        Ok(_) => panic!("a failed load starts no session"),
        Err(refusal) => assert_eq!(refusal.message, "Unknown module 'no_such_module'."),
    }
}

#[test]
fn a_missing_module_ends_in_an_error_and_the_session_goes_on() {
    let mut session = fresh();
    assert_eq!(result_of(&mut session, "6 * 7"), "    = 42\n");
    assert_eq!(error_of(&mut session, "use not::anywhere"), "Unknown module 'not::anywhere'.");
    assert_eq!(result_of(&mut session, "6 * 7"), "    = 42\n");
}

#[test]
fn a_session_can_take_many_submissions() {
    let mut session = fresh();
    for round in 0..200 {
        assert_eq!(result_of(&mut session, "1 + 1"), "    = 2\n", "round {}", round);
    }
}
