use cli_harness::repo::{repo_root, setup_plan, SetupAction};

#[test]
fn root_appends_name_directly() {
    assert_eq!(repo_root("/tmp/scratch/", "repo_new"), "/tmp/scratch/repo_new");
    assert_eq!(repo_root("/tmp/scratch", "repo-new"), "/tmp/scratchrepo-new");
}

#[test]
fn root_of_empty_parts() {
    assert_eq!(repo_root("", "repo"), "repo");
    assert_eq!(repo_root("/tmp/", ""), "/tmp/");
}

#[test]
fn plan_for_fresh_root() {
    assert_eq!(
        setup_plan(false),
        vec![SetupAction::CreateRoot, SetupAction::InitRepository]
    );
}

#[test]
fn plan_for_stale_root_removes_it_first() {
    assert_eq!(
        setup_plan(true),
        vec![
            SetupAction::RemoveExisting,
            SetupAction::CreateRoot,
            SetupAction::InitRepository
        ]
    );
}
