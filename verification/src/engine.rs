//! The interpreter engine, as far as the session needs it.
//!
//! Everything in this file is taken on trust: the types are the engine's own
//! and opaque here, and each function states of one engine call what the
//! engine's source shows. Nothing else in the library is unproved.

use crate::text::joined;
use itertools::Itertools;
use numbat::compact_str::ToCompactString;
use numbat::module_importer::BuiltinModuleImporter;
use numbat::module_importer::ChainedImporter;
use numbat::module_importer::FileSystemImporter;
use numbat::module_importer::ModuleImporter;
use numbat::pretty_print::PrettyPrint;
use numbat::resolver::ModulePath;
use numbat::Context;
use numbat::InterpreterResult;
use numbat::NumbatError;
use numbat::Statement;
use vstd::prelude::*;

verus! {

/// The interpreter's state: bindings, units, dimensions, and the importer
/// it resolves modules with.
#[verifier::external_type_specification]
#[verifier::external_body]
pub struct ExContext(Context);

/// One parsed and type-checked statement. It borrows from the source text.
#[verifier::external_type_specification]
#[verifier::external_body]
pub struct ExStatement<'a>(Statement<'a>);

/// What evaluating a sequence of statements gave: a value, or nothing to show.
#[verifier::external_type_specification]
#[verifier::external_body]
pub struct ExInterpreterResult(InterpreterResult);

/// The engine's structured error.
#[verifier::external_type_specification]
#[verifier::external_body]
pub struct ExNumbatError(NumbatError);

/// An importer that looks for module files under a list of directories.
#[verifier::external_type_specification]
#[verifier::external_body]
pub struct ExFileSystemImporter(FileSystemImporter);

/// The importer of the modules that are embedded in the engine.
#[verifier::external_type_specification]
#[verifier::external_body]
pub struct ExBuiltinModuleImporter(BuiltinModuleImporter);

/// The directories that a file system importer consults, in the order in
/// which it consults them.
pub uninterp spec fn importer_roots(importer: FileSystemImporter) -> Seq<Seq<char>>;

/// The directories that a context's importer consults before it falls back
/// on the embedded modules, in order.
pub uninterp spec fn search_roots(context: Context) -> Seq<Seq<char>>;

/// The terminal width that a context was told of.
pub uninterp spec fn terminal_width(context: Context) -> Option<usize>;

/// The source of a module in the engine's embedded catalog, if the catalog
/// has the module. The module is given by the segments of its path.
pub uninterp spec fn builtin_module(module: Seq<Seq<char>>) -> Option<Seq<char>>;

/// A statement's canonical printed form, as plain text.
pub uninterp spec fn statement_text(statement: Statement<'_>) -> Seq<char>;

/// The engine's rendering of a result as plain text, for the statement that
/// the result is shown for, with the dimensions that the context knows, and
/// with the renderer's two flags.
pub uninterp spec fn result_markup(
    result: InterpreterResult,
    subject: Option<Statement<'_>>,
    context: Context,
    with_type_info: bool,
    with_equal_sign: bool,
) -> Seq<char>;

/// An engine error's message for a reader.
pub uninterp spec fn error_text(error: NumbatError) -> Seq<char>;

/// That a lookup of a module under a list of directories gave an answer:
/// the module's source, or nothing. What a lookup gives depends on what is
/// on disk when it is made, so this is a relation and no function; it is
/// stated of each answer that `import_from_directories` returns, and of
/// nothing else.
pub uninterp spec fn directory_answers(
    directories: Seq<Seq<char>>,
    module: Seq<Seq<char>>,
    found: Option<Seq<char>>,
) -> bool;

/// `FileSystemImporter::default`: the derived default holds an empty list of
/// directories.
#[verifier::external_body]
pub(crate) fn new_importer() -> (importer: FileSystemImporter)
    ensures
        importer_roots(importer) == Seq::<Seq<char>>::empty(),
{
    FileSystemImporter::default()
}

/// `FileSystemImporter::add_path`: pushes the directory onto the end of the
/// importer's list.
#[verifier::external_body]
pub(crate) fn add_root(importer: &mut FileSystemImporter, directory: &str)
    ensures
        importer_roots(*final(importer)) == importer_roots(*old(importer)).push(directory@),
{
    importer.add_path(directory)
}

/// `BuiltinModuleImporter::default`: the importer has no state, so nothing is
/// said of it.
#[verifier::external_body]
pub(crate) fn builtin_importer() -> BuiltinModuleImporter {
    BuiltinModuleImporter::default()
}

/// `Context::new` on a `ChainedImporter` of the two importers: the context
/// keeps the importer it is given, asks `main` first and `fallback` only
/// where `main` finds nothing, and starts without a terminal width.
#[verifier::external_body]
pub(crate) fn new_context(main: FileSystemImporter, fallback: BuiltinModuleImporter) -> (context:
    Context)
    ensures
        search_roots(context) == importer_roots(main),
        terminal_width(context) is None,
{
    Context::new(ChainedImporter::new(Box::new(main), Box::new(fallback)))
}

/// `Context::set_terminal_width` stores the width and touches nothing else.
pub assume_specification[ Context::set_terminal_width ](context: &mut Context, width: Option<usize>)
    ensures
        terminal_width(*final(context)) == width,
        search_roots(*final(context)) == search_roots(*old(context)),
;

/// `Statement::pretty_print`, written out as plain text.
#[verifier::external_body]
pub(crate) fn print_statement(statement: &Statement<'_>) -> (text: String)
    ensures
        text@ == statement_text(*statement),
{
    statement.pretty_print().to_string()
}

/// `InterpreterResult::to_markup`, written out as plain text. The renderer
/// reads the dimensions from the context's registry.
#[verifier::external_body]
pub(crate) fn render_result(
    result: &InterpreterResult,
    subject: Option<&Statement<'_>>,
    context: &Context,
    with_type_info: bool,
    with_equal_sign: bool,
) -> (text: String)
    ensures
        text@ == result_markup(
            *result,
            match subject {
                Some(statement) => Some(*statement),
                None => None,
            },
            *context,
            with_type_info,
            with_equal_sign,
        ),
{
    result.to_markup(subject, context.dimension_registry(), with_type_info, with_equal_sign)
        .to_string()
}

/// The engine error's `Display` text.
#[verifier::external_body]
pub(crate) fn describe_error(error: &NumbatError) -> (text: String)
    ensures
        text@ == error_text(*error),
{
    error.to_string()
}

/// `Itertools::join`: the items in order, with the separator between each
/// two neighbours; the empty text for no items.
#[verifier::external_body]
pub(crate) fn join_lines(lines: &Vec<String>, separator: &str) -> (text: String)
    ensures
        text@ == joined(lines.deep_view(), separator@),
{
    lines.iter().join(separator)
}

/// `FileSystemImporter::import`: reads the module's file under the first of
/// the importer's directories that has one. The answer depends on what is on
/// disk: all that is said of it is that it is an answer of this lookup.
#[verifier::external_body]
pub(crate) fn import_from_directories(importer: &FileSystemImporter, module: &Vec<String>) -> (found:
    Option<String>)
    ensures
        directory_answers(importer_roots(*importer), module.deep_view(), found.deep_view()),
{
    let path = ModulePath(module.iter().map(|segment| segment.to_compact_string()).collect());
    importer.import(&path).map(|(source, _)| source)
}

/// `BuiltinModuleImporter::import`: looks the module up in the embedded
/// catalog, which is the same for every call.
#[verifier::external_body]
pub(crate) fn import_builtin(importer: &BuiltinModuleImporter, module: &Vec<String>) -> (found:
    Option<String>)
    ensures
        found.deep_view() == builtin_module(module.deep_view()),
{
    let path = ModulePath(module.iter().map(|segment| segment.to_compact_string()).collect());
    importer.import(&path).map(|(source, _)| source)
}

} // verus!
