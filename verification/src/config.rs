//! The directory that an otel-worker works in.
use crate::text::join;
use vstd::prelude::*;

verus! {

/// The directory name that is used for the otel-worker working directory. This
/// will contain the database, temporary files, etc.
pub const WORKING_DIRECTORY_NAME: &'static str = ".otel-worker";

/// The file name that is used to identify the database within otel-worker
/// working directory.
pub const DATABASE_FILENAME: &'static str = "data.db";

/// What to do next in the search for the otel-worker directory. The current
/// directory has level 0, its parent level 1, and so on up to the root.
#[derive(Debug, Clone, Copy, PartialEq, Eq, Structural)]
pub enum SearchStep {
    /// Look whether the directory of this level has an otel-worker directory.
    Look(usize),
    /// It is in the directory of this level.
    Found(usize),
    /// There is none.
    NotFound,
}

/// The next step of a search over `levels` directories, when all below `level`
/// were looked into in vain.
pub open spec fn look(level: int, levels: int) -> SearchStep {
    if level < levels {
        SearchStep::Look(level as usize)
    } else {
        SearchStep::NotFound
    }
}

/// The step that follows on looking into the directory of `level`, one of `levels`.
pub open spec fn looked(levels: int, level: usize, present: bool) -> SearchStep {
    if present {
        SearchStep::Found(level)
    } else {
        look(level + 1, levels)
    }
}

/// Starts the search for the otel-worker directory in the current directory, which
/// has `levels` directories on the way up to the root, itself included. Where
/// there is no current directory nothing is found.
pub fn find_otel_worker_dir(levels: Option<usize>) -> (step: SearchStep)
    ensures
        match levels {
            Some(levels) => step == look(0, levels as int),
            None => step is NotFound,
        },
{
    match levels {
        Some(levels) => if levels > 0 {
            SearchStep::Look(0)
        } else {
            SearchStep::NotFound
        },
        None => SearchStep::NotFound,
    }
}

/// Goes on with the search, when it is known whether the directory of `level`
/// has an otel-worker directory.
pub fn find_otel_worker_dir_next(levels: usize, level: usize, present: bool) -> (step: SearchStep)
    requires
        level < levels,
    ensures
        step == looked(levels as int, level, present),
{
    if present {
        SearchStep::Found(level)
    } else if level + 1 < levels {
        SearchStep::Look(level + 1)
    } else {
        SearchStep::NotFound
    }
}

/// The step that comes next where `present` says which directories have an
/// otel-worker directory.
pub open spec fn next_step(present: Seq<bool>, step: SearchStep) -> SearchStep {
    match step {
        SearchStep::Look(level) => looked(present.len() as int, level, present[level as int]),
        SearchStep::Found(level) => SearchStep::Found(level),
        SearchStep::NotFound => SearchStep::NotFound,
    }
}

/// What a search has come to after so many steps.
pub open spec fn after_steps(present: Seq<bool>, steps: nat) -> SearchStep
    decreases steps,
{
    if steps == 0 {
        look(0, present.len() as int)
    } else {
        next_step(present, after_steps(present, (steps - 1) as nat))
    }
}

/// The search finds the nearest otel-worker directory: it ends after no more
/// steps than there are directories, in the lowest level that has one, and in
/// vain only where none has one.
pub proof fn law_search_finds_the_nearest(present: Seq<bool>)
    requires
        present.len() <= usize::MAX,
    ensures
        match after_steps(present, present.len()) {
            SearchStep::Found(level) => {
                &&& level < present.len()
                &&& present[level as int]
                &&& forall|lower: int| 0 <= lower < level ==> !#[trigger] present[lower]
            },
            SearchStep::NotFound => {
                forall|level: int| 0 <= level < present.len() ==> !#[trigger] present[level]
            },
            SearchStep::Look(_) => false,
        },
{
    lemma_after_steps(present, present.len());
}

/// After `steps` steps that many directories were looked into, or the search is
/// over.
proof fn lemma_after_steps(present: Seq<bool>, steps: nat)
    requires
        steps <= present.len() <= usize::MAX,
    ensures
        match after_steps(present, steps) {
            SearchStep::Found(level) => {
                &&& level < steps
                &&& present[level as int]
                &&& forall|lower: int| 0 <= lower < level ==> !#[trigger] present[lower]
            },
            SearchStep::NotFound => {
                &&& steps == present.len()
                &&& forall|level: int| 0 <= level < present.len() ==> !#[trigger] present[level]
            },
            SearchStep::Look(level) => {
                &&& level == steps
                &&& level < present.len()
                &&& forall|lower: int| 0 <= lower < level ==> !#[trigger] present[lower]
            },
        },
    decreases steps,
{
    if steps > 0 {
        lemma_after_steps(present, (steps - 1) as nat);
    }
}

/// Which directory is to be used, and whether it has to be created.
#[derive(Debug)]
pub enum InitializePlan<P> {
    /// This directory, created where it is not there.
    Create(P),
    /// This directory, which is there.
    Use(P),
    /// A directory of the usual name in the current directory, created where it
    /// is not there.
    CreateInCurrentDirectory,
}

/// Which directory an otel-worker works in: the one that is asked for, else the
/// one that was found, else one in the current directory.
pub open spec fn initialize_plan<P>(override_path: Option<P>, found: Option<P>) -> InitializePlan<
    P,
> {
    match override_path {
        Some(path) => InitializePlan::Create(path),
        None => match found {
            Some(path) => InitializePlan::Use(path),
            None => InitializePlan::CreateInCurrentDirectory,
        },
    }
}

/// Which directory an otel-worker works in: the one that is asked for, else the
/// one that was found, else one in the current directory. Whether one was found
/// plays no role where one is asked for.
pub fn initialize_otel_worker_dir<P>(override_path: Option<P>, found: Option<P>) -> (plan:
    InitializePlan<P>)
    ensures
        plan == initialize_plan(override_path, found),
{
    match override_path {
        Some(path) => InitializePlan::Create(path),
        None => match found {
            Some(path) => InitializePlan::Use(path),
            None => InitializePlan::CreateInCurrentDirectory,
        },
    }
}

/// The directory that a search found, where `paths` has for each level the
/// otel-worker directory that may be there.
pub open spec fn found_at<P>(step: SearchStep, paths: Seq<P>) -> Option<P> {
    match step {
        SearchStep::Found(level) => Some(paths[level as int]),
        SearchStep::Look(_) => None,
        SearchStep::NotFound => None,
    }
}

/// The directory that a plan without a wish comes to.
pub open spec fn planned<P>(plan: InitializePlan<P>, paths: Seq<P>) -> P {
    match plan {
        InitializePlan::Create(path) => path,
        InitializePlan::Use(path) => path,
        InitializePlan::CreateInCurrentDirectory => paths[0],
    }
}

/// Which levels have an otel-worker directory once the plan is carried out.
pub open spec fn carried_out<P>(plan: InitializePlan<P>, present: Seq<bool>) -> Seq<bool> {
    if plan is CreateInCurrentDirectory {
        present.update(0, true)
    } else {
        present
    }
}

/// What was initialized is found from then on: after an initialization without a
/// wish the search finds the directory that it came to, and a second one uses that
/// as it is and creates nothing.
pub proof fn law_second_initialization_uses_the_first<P>(present: Seq<bool>, paths: Seq<P>)
    requires
        0 < present.len() <= usize::MAX,
        paths.len() == present.len(),
    ensures
        ({
            let first = initialize_plan(
                None,
                found_at(after_steps(present, present.len()), paths),
            );
            let later = carried_out(first, present);
            let found = found_at(after_steps(later, later.len()), paths);
            &&& found == Some(planned(first, paths))
            &&& initialize_plan(None, found) == InitializePlan::Use(planned(first, paths))
            &&& carried_out(initialize_plan(None, found), later) == later
        }),
{
    let step = after_steps(present, present.len());
    law_search_finds_the_nearest(present);
    let first = initialize_plan(None, found_at(step, paths));
    let later = carried_out(first, present);
    law_search_finds_the_nearest(later);
    if step is NotFound {
        assert(later[0]);
    }
}

/// That a directory could not be created, in words.
pub fn create_failure(path: &str) -> (message: String)
    ensures
        message@ == "Failed to create otel-worker working directory: "@ + path@,
{
    join("Failed to create otel-worker working directory: ", path)
}

/// A directory that is asked for is used whatever was found, and created; one that
/// was found is used without being created; and only where there is neither is one
/// created in the current directory.
pub proof fn law_initialization_goes_by_what_is_asked_for<P>(
    override_path: Option<P>,
    found: Option<P>,
)
    ensures
        override_path matches Some(path) ==> initialize_plan(override_path, found)
            == InitializePlan::Create(path),
        override_path is None ==> (found matches Some(path) ==> initialize_plan(
            override_path,
            found,
        ) == InitializePlan::Use(path)),
        initialize_plan(override_path, found) is CreateInCurrentDirectory <==> (override_path
            is None && found is None),
{
}

/// One look goes up by one directory, or ends the search.
pub proof fn law_search_goes_up_one_by_one(levels: int, level: usize, present: bool)
    requires
        level < levels <= usize::MAX,
    ensures
        look(0, levels) == SearchStep::Look(0),
        look(0, 0) is NotFound,
        present ==> looked(levels, level, present) == SearchStep::Found(level),
        !present && level + 1 < levels ==> looked(levels, level, present) == SearchStep::Look(
            (level + 1) as usize,
        ),
        !present && level + 1 == levels ==> looked(levels, level, present) is NotFound,
{
}

} // verus!
