//! Scratch git repositories used by the tests: where they live and how they are set up.
use vstd::prelude::*;

verus! {

/// Root directory of the scratch repository `name`: the scratch directory's value
/// with the name appended directly, without a separator.
pub fn repo_root(temp_dir: &str, name: &str) -> (res: String)
    ensures
        res@ == temp_dir@ + name@,
{
    String::from_str(temp_dir).concat(name)
}

/// One file-system step of preparing a scratch repository.
#[derive(PartialEq, Eq, Structural, Clone, Copy, Debug)]
pub enum SetupAction {
    /// Remove the existing root directory and everything below it.
    RemoveExisting,
    /// Create the root directory and any missing parents.
    CreateRoot,
    /// Initialise an empty git repository in the root directory.
    InitRepository,
}

/// The steps that prepare a scratch repository, given whether its root already exists.
pub open spec fn setup_plan_spec(root_exists: bool) -> Seq<SetupAction> {
    if root_exists {
        seq![SetupAction::RemoveExisting, SetupAction::CreateRoot, SetupAction::InitRepository]
    } else {
        seq![SetupAction::CreateRoot, SetupAction::InitRepository]
    }
}

/// The steps, in order, that prepare a scratch repository once it is known whether its
/// root already exists: a stale root is removed first, then the root is created and a
/// repository initialised in it. The caller stops at the first step that fails.
pub fn setup_plan(root_exists: bool) -> (plan: Vec<SetupAction>)
    ensures
        plan@ == setup_plan_spec(root_exists),
{
    let mut plan: Vec<SetupAction> = Vec::new();
    if root_exists {
        plan.push(SetupAction::RemoveExisting);
    }
    plan.push(SetupAction::CreateRoot);
    plan.push(SetupAction::InitRepository);
    plan
}

/// Setting up always ends by creating the root and then initialising the repository;
/// a stale root is removed, first and only once, exactly when one exists; nothing else
/// is done.
pub proof fn law_setup_plan_order(root_exists: bool)
    ensures
        setup_plan_spec(root_exists).len() == if root_exists { 3nat } else { 2nat },
        setup_plan_spec(root_exists)[setup_plan_spec(root_exists).len() - 2]
            == SetupAction::CreateRoot,
        setup_plan_spec(root_exists)[setup_plan_spec(root_exists).len() - 1]
            == SetupAction::InitRepository,
        root_exists ==> setup_plan_spec(root_exists)[0] == SetupAction::RemoveExisting,
        setup_plan_spec(root_exists).contains(SetupAction::RemoveExisting) == root_exists,
{
    let p = setup_plan_spec(root_exists);
    if root_exists {
        assert(p[0] == SetupAction::RemoveExisting);
    } else {
        assert(p[0] != SetupAction::RemoveExisting && p[1] != SetupAction::RemoveExisting);
    }
}

} // verus!
