//! The module resolution chain: where the source of a module is looked for,
//! and in what order.

use crate::engine::add_root;
use crate::engine::builtin_importer;
use crate::engine::builtin_module;
use crate::engine::directory_answers;
use crate::engine::import_builtin;
use crate::engine::import_from_directories;
use crate::engine::importer_roots;
use crate::engine::new_importer;
use numbat::module_importer::FileSystemImporter;
use vstd::prelude::*;

verus! {

/// One place that the chain looks in.
#[derive(Debug, Clone, Copy, PartialEq, Eq, Structural)]
pub enum SearchRoot {
    /// The directory at this position of the chain. Position 0 is asked
    /// first.
    Directory(usize),
    /// The engine's embedded catalog, which is asked last.
    Builtin,
}

/// A module that was found.
#[derive(Debug, Clone, PartialEq, Eq)]
pub struct Resolved {
    /// The place that had the module.
    pub root: SearchRoot,
    /// The module's source text.
    pub source: String,
}

/// Why a module was not resolved.
#[derive(Debug, Clone, Copy, PartialEq, Eq, Structural)]
pub enum ResolveError {
    /// No directory of the chain has the module, nor has the embedded
    /// catalog.
    NotFound,
}

impl View for Resolved {
    type V = (SearchRoot, Seq<char>);

    open spec fn view(&self) -> (SearchRoot, Seq<char>) {
        (self.root, self.source@)
    }
}

/// Position `i` holds a hit and every position before it a miss.
pub open spec fn is_first_hit(hits: Seq<Option<Seq<char>>>, i: int) -> bool {
    &&& 0 <= i < hits.len()
    &&& hits[i] is Some
    &&& forall|j: int| 0 <= j < i ==> (#[trigger] hits[j]) is None
}

/// Every position holds a miss.
pub open spec fn all_miss(hits: Seq<Option<Seq<char>>>) -> bool {
    forall|j: int| 0 <= j < hits.len() ==> (#[trigger] hits[j]) is None
}

/// The position of the first hit, if there is a hit.
pub open spec fn first_hit(hits: Seq<Option<Seq<char>>>) -> Option<int>
    decreases hits.len(),
{
    if hits.len() == 0 {
        None
    } else {
        match first_hit(hits.drop_last()) {
            Some(i) => Some(i),
            None => if hits.last() is Some {
                Some(hits.len() - 1)
            } else {
                None
            },
        }
    }
}

/// What the chain answers, given what each directory answered, in the
/// chain's order, and what the embedded catalog answered: the first
/// directory's hit wins, the catalog is the fallback, and a miss everywhere
/// is an error.
pub open spec fn resolution(
    directory_hits: Seq<Option<Seq<char>>>,
    builtin_hit: Option<Seq<char>>,
) -> Result<(SearchRoot, Seq<char>), ResolveError> {
    match first_hit(directory_hits) {
        Some(i) => Ok((SearchRoot::Directory(i as usize), directory_hits[i]->0)),
        None => match builtin_hit {
            Some(source) => Ok((SearchRoot::Builtin, source)),
            None => Err(ResolveError::NotFound),
        },
    }
}

/// The answer of a resolution, as the contracts speak of it.
pub open spec fn answer(found: Result<Resolved, ResolveError>) -> Result<
    (SearchRoot, Seq<char>),
    ResolveError,
> {
    match found {
        Ok(resolved) => Ok(resolved@),
        Err(error) => Err(error),
    }
}

/// `first_hit` finds the one position that is a first hit, and finds none
/// exactly where every position is a miss.
pub proof fn first_hit_is_first(hits: Seq<Option<Seq<char>>>)
    ensures
        first_hit(hits) matches Some(i) ==> is_first_hit(hits, i),
        first_hit(hits) is None ==> all_miss(hits),
        forall|i: int| is_first_hit(hits, i) ==> first_hit(hits) == Some(i),
        all_miss(hits) ==> first_hit(hits) is None,
    decreases hits.len(),
{
    if hits.len() > 0 {
        let front = hits.drop_last();
        first_hit_is_first(front);
        assert forall|j: int| 0 <= j < front.len() implies front[j] == hits[j] by {}
        match first_hit(front) {
            Some(k) => {
                assert(is_first_hit(hits, k));
                assert forall|i: int| is_first_hit(hits, i) implies i == k by {
                    if i < k {
                        assert(hits[i] is None);
                    } else if k < i {
                        assert(hits[k] is None);
                    }
                }
            },
            None => {
                assert(all_miss(front));
                assert forall|i: int| is_first_hit(hits, i) implies first_hit(hits) == Some(i) by {
                    if i < hits.len() - 1 {
                        assert(front[i] is None);
                    }
                }
                if hits.last() is Some {
                    assert forall|j: int| 0 <= j < hits.len() - 1 implies (#[trigger] hits[j])
                        is None by {
                        assert(front[j] is None);
                    }
                } else {
                    assert forall|j: int| 0 <= j < hits.len() implies (#[trigger] hits[j])
                        is None by {
                        if j < hits.len() - 1 {
                            assert(front[j] is None);
                        }
                    }
                }
            },
        }
        if all_miss(hits) {
            assert(hits.last() is None);
            assert forall|j: int| 0 <= j < front.len() implies (#[trigger] front[j]) is None by {
                assert(hits[j] is None);
            }
        }
    }
}

/// A module that a directory of the chain holds is resolved from a
/// directory, the first that holds it, whatever the embedded catalog has
/// under the same name.
pub proof fn directory_wins_over_builtin(
    directory_hits: Seq<Option<Seq<char>>>,
    builtin_hit: Option<Seq<char>>,
    i: int,
)
    requires
        0 <= i < directory_hits.len() <= usize::MAX,
        directory_hits[i] is Some,
    ensures
        resolution(directory_hits, builtin_hit) matches Ok((SearchRoot::Directory(j), source))
            && j <= i && is_first_hit(directory_hits, j as int) && directory_hits[j as int]
            == Some(source),
{
    first_hit_is_first(directory_hits);
    if first_hit(directory_hits) is None {
        assert(directory_hits[i] is None);
    }
    let j = first_hit(directory_hits)->0;
    if i < j {
        assert(directory_hits[i] is None);
    }
}

/// A module that only the embedded catalog holds is resolved from the
/// catalog, however many directories were asked in vain before.
pub proof fn builtin_is_the_fallback(directory_hits: Seq<Option<Seq<char>>>, source: Seq<char>)
    requires
        all_miss(directory_hits),
    ensures
        resolution(directory_hits, Some(source)) == Ok::<_, ResolveError>(
            (SearchRoot::Builtin, source),
        ),
{
    first_hit_is_first(directory_hits);
}

/// A module that no place holds is not found.
pub proof fn missing_everywhere_is_not_found(directory_hits: Seq<Option<Seq<char>>>)
    requires
        all_miss(directory_hits),
    ensures
        resolution(directory_hits, None) == Err::<(SearchRoot, Seq<char>), _>(
            ResolveError::NotFound,
        ),
{
    first_hit_is_first(directory_hits);
}

/// Applies the chain's policy to lookups that were already made: the
/// answers of the directories, in the chain's order, and the answer of the
/// embedded catalog.
pub fn select_source(directory_hits: &Vec<Option<String>>, builtin_hit: &Option<String>) -> (found:
    Result<Resolved, ResolveError>)
    ensures
        answer(found) == resolution(directory_hits.deep_view(), builtin_hit.deep_view()),
{
    let ghost hits = directory_hits.deep_view();
    let mut i: usize = 0;
    while i < directory_hits.len()
        invariant
            i <= directory_hits.len(),
            hits == directory_hits.deep_view(),
            forall|j: int| 0 <= j < i ==> (#[trigger] hits[j]) is None,
        decreases directory_hits.len() - i,
    {
        match &directory_hits[i] {
            Some(source) => {
                assert(hits[i as int] == Some(source@));
                assert(is_first_hit(hits, i as int));
                proof {
                    first_hit_is_first(hits);
                }
                return Ok(Resolved { root: SearchRoot::Directory(i), source: source.clone() });
            },
            None => {
                assert(hits[i as int] is None);
            },
        }
        i += 1;
    }
    assert(all_miss(hits));
    proof {
        first_hit_is_first(hits);
    }
    match builtin_hit {
        Some(source) => Ok(Resolved { root: SearchRoot::Builtin, source: source.clone() }),
        None => Err(ResolveError::NotFound),
    }
}

/// What the chain does once a directory has answered.
#[derive(Debug, Clone, PartialEq, Eq)]
pub enum Step {
    /// The directory has the module: the search ends here.
    Found(Resolved),
    /// The directory missed: the next place is asked.
    AskNext,
}

/// What a directory's answer settles: the module, found at that position,
/// where the directory has it; nothing where it missed.
pub open spec fn settled(position: usize, hit: Option<Seq<char>>) -> Option<
    (SearchRoot, Seq<char>),
> {
    match hit {
        Some(source) => Some((SearchRoot::Directory(position), source)),
        None => None,
    }
}

/// Decides what follows the answer of the directory at a position of the
/// chain: a hit ends the search with that directory's source, a miss sends
/// it on.
pub fn step(position: usize, hit: Option<String>) -> (next: Step)
    ensures
        match next {
            Step::Found(resolved) => settled(position, hit.deep_view()) == Some(resolved@),
            Step::AskNext => settled(position, hit.deep_view()) is None,
        },
{
    match hit {
        Some(source) => Step::Found(Resolved { root: SearchRoot::Directory(position), source }),
        None => Step::AskNext,
    }
}

/// Decides what the search comes to once every directory has missed: the
/// catalog's module where the catalog has it, `NotFound` where it has not.
pub fn fall_back(catalog_hit: Option<String>) -> (found: Result<Resolved, ResolveError>)
    ensures
        answer(found) == resolution(Seq::empty(), catalog_hit.deep_view()),
{
    match catalog_hit {
        Some(source) => Ok(Resolved { root: SearchRoot::Builtin, source }),
        None => Err(ResolveError::NotFound),
    }
}

/// An ordered list of directories, with the engine's embedded catalog as
/// the one fallback behind the last of them.
#[derive(Debug, Clone, PartialEq, Eq)]
pub struct ModuleResolutionChain {
    directories: Vec<String>,
}

impl View for ModuleResolutionChain {
    type V = Seq<Seq<char>>;

    /// The directories, first priority first.
    closed spec fn view(&self) -> Seq<Seq<char>> {
        self.directories.deep_view()
    }
}

impl ModuleResolutionChain {
    /// A chain that asks the directories in the given order.
    pub fn new(directories: Vec<String>) -> (chain: Self)
        ensures
            chain@ == directories.deep_view(),
    {
        ModuleResolutionChain { directories }
    }

    /// The directories, first priority first.
    pub fn directories(&self) -> (directories: &Vec<String>)
        ensures
            directories.deep_view() == self@,
    {
        &self.directories
    }

    /// The answers of the directories that a search asked: each is what the
    /// lookup of the module under that directory alone gave, in the chain's
    /// order from its first directory on, and the search went through the
    /// whole chain unless a hit ended it.
    pub open spec fn asked_in_turn(
        self,
        module: Seq<Seq<char>>,
        asked: Seq<Option<Seq<char>>>,
    ) -> bool {
        &&& asked.len() <= self@.len()
        &&& asked.len() == self@.len() || (asked.len() > 0 && asked.last() is Some)
        &&& forall|i: int|
            0 <= i < asked.len() ==> directory_answers(seq![self@[i]], module, #[trigger] asked[i])
    }

    /// An importer that looks under the directory at one position of the
    /// chain and nowhere else.
    fn directory_importer(&self, position: usize) -> (importer: FileSystemImporter)
        requires
            position < self@.len(),
        ensures
            importer_roots(importer) == seq![self@[position as int]],
    {
        let mut importer = new_importer();
        add_root(&mut importer, self.directories[position].as_str());
        assert(importer_roots(importer) =~= seq![self@[position as int]]);
        importer
    }

    /// Looks for a module, given by the segments of its path: in each
    /// directory in turn, and in the embedded catalog once every directory
    /// has missed.
    ///
    /// Each directory is asked through an importer that holds that
    /// directory alone, and `step` decides on its answer; `fall_back`
    /// decides on the catalog's. What the directories hold is read from disk
    /// at the time of the call. Whatever the directories that were asked
    /// answered, the result is the chain's answer to it and to what the
    /// catalog holds. So a module that comes from a directory comes from one
    /// of this chain; a module that comes from the catalog is the catalog's;
    /// and a module that the catalog has is never reported as not found.
    pub fn resolve(&self, module: &Vec<String>) -> (found: Result<Resolved, ResolveError>)
        ensures
            exists|asked: Seq<Option<Seq<char>>>|
                self.asked_in_turn(module.deep_view(), asked) && #[trigger] resolution(
                    asked,
                    builtin_module(module.deep_view()),
                ) == answer(found),
            match found {
                Ok(resolved) => match resolved.root {
                    SearchRoot::Directory(i) => i < self@.len(),
                    SearchRoot::Builtin => builtin_module(module.deep_view()) == Some(
                        resolved.source@,
                    ),
                },
                Err(error) => builtin_module(module.deep_view()) is None,
            },
    {
        let ghost catalog = builtin_module(module.deep_view());
        let ghost mut asked: Seq<Option<Seq<char>>> = Seq::empty();
        let mut i: usize = 0;
        while i < self.directories.len()
            invariant
                i <= self.directories.len(),
                self.directories.len() == self@.len(),
                catalog == builtin_module(module.deep_view()),
                asked.len() == i,
                all_miss(asked),
                forall|j: int|
                    0 <= j < asked.len() ==> directory_answers(
                        seq![self@[j]],
                        module.deep_view(),
                        #[trigger] asked[j],
                    ),
            decreases self.directories.len() - i,
        {
            let directory = self.directory_importer(i);
            let hit = import_from_directories(&directory, module);
            let ghost answered = asked.push(hit.deep_view());
            match step(i, hit) {
                Step::Found(resolved) => {
                    proof {
                        assert(answered[i as int] is Some);
                        assert forall|j: int| 0 <= j < i implies (#[trigger] answered[j])
                            is None by {
                            assert(asked[j] is None);
                        }
                        assert(is_first_hit(answered, i as int));
                        assert forall|j: int| 0 <= j < answered.len() implies directory_answers(
                            seq![self@[j]],
                            module.deep_view(),
                            #[trigger] answered[j],
                        ) by {
                            if j < i {
                                assert(answered[j] == asked[j]);
                            }
                        }
                        assert(self.asked_in_turn(module.deep_view(), answered));
                        first_hit_is_first(answered);
                        assert(resolution(answered, catalog) == Ok::<_, ResolveError>(resolved@));
                    }
                    return Ok(resolved);
                },
                Step::AskNext => {
                    proof {
                        assert forall|j: int| 0 <= j < answered.len() implies (
                        #[trigger] answered[j]) is None by {
                            if j < i {
                                assert(asked[j] is None);
                            }
                        }
                        assert forall|j: int| 0 <= j < answered.len() implies directory_answers(
                            seq![self@[j]],
                            module.deep_view(),
                            #[trigger] answered[j],
                        ) by {
                            if j < i {
                                assert(answered[j] == asked[j]);
                            }
                        }
                        asked = answered;
                    }
                },
            }
            i += 1;
        }
        let found = fall_back(import_builtin(&builtin_importer(), module));
        proof {
            first_hit_is_first(asked);
            first_hit_is_first(Seq::<Option<Seq<char>>>::empty());
            assert(self.asked_in_turn(module.deep_view(), asked));
            assert(resolution(asked, catalog) == answer(found));
        }
        found
    }
}

} // verus!
