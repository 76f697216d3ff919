use zrraw::{candidates, Candidate, FileVariant, LocateAction, Locator, SearchBase, SearchDir};

/// Runs a search where `opens[i]` says whether candidate `i` opens;
/// returns the candidates tried and the final action.
fn run(opens: &[bool]) -> (Vec<Candidate>, LocateAction) {
    let order = candidates();
    let mut l = Locator::new();
    let mut tried = Vec::new();
    loop {
        match l.next_action() {
            LocateAction::Try(c) => {
                let i = order.iter().position(|x| *x == c).unwrap();
                assert_eq!(i, tried.len());
                tried.push(c);
                l.report(opens[i]);
            }
            done => return (tried, done),
        }
    }
}

#[test]
fn search_order_prefers_fresh_builds() {
    let order = candidates();
    let dirs = [
        SearchDir::DebugDeps,
        SearchDir::ParentDebugDeps,
        SearchDir::WorkingDir,
        SearchDir::BuildOutput,
        SearchDir::ProjectBuildOutput,
        SearchDir::AbsoluteDebugDeps,
        SearchDir::ExecutableDir,
    ];
    assert_eq!(order.len(), 15);
    for (k, d) in dirs.into_iter().enumerate() {
        assert_eq!(order[2 * k], Candidate::File(d, FileVariant::Primary));
        assert_eq!(order[2 * k + 1], Candidate::File(d, FileVariant::Alternate));
    }
    assert_eq!(order[14], Candidate::System);
}

#[test]
fn search_directories_and_bases() {
    assert_eq!(SearchDir::DebugDeps.relative_path(), "target/debug/deps");
    assert_eq!(SearchDir::ParentDebugDeps.relative_path(), "../target/debug/deps");
    assert_eq!(SearchDir::WorkingDir.relative_path(), "");
    assert_eq!(SearchDir::BuildOutput.relative_path(), "zig-out/lib");
    assert_eq!(SearchDir::ProjectBuildOutput.relative_path(), "../../../zig-out/lib");
    assert_eq!(SearchDir::AbsoluteDebugDeps.base(), SearchBase::AbsoluteWorkingDir);
    assert_eq!(SearchDir::ExecutableDir.base(), SearchBase::ExecutableDir);
    assert_eq!(SearchDir::BuildOutput.base(), SearchBase::Relative);
}

#[test]
fn first_success_wins_over_later_ones() {
    let mut opens = [false; 15];
    opens[3] = true;
    opens[5] = true;
    opens[14] = true;
    let (tried, done) = run(&opens);
    assert_eq!(tried.len(), 4);
    assert_eq!(done, LocateAction::Opened(3));
}

#[test]
fn first_candidate_opens() {
    let (tried, done) = run(&[true; 15]);
    assert_eq!(tried.len(), 1);
    assert_eq!(done, LocateAction::Opened(0));
}

#[test]
fn system_search_is_last_resort() {
    let mut opens = [false; 15];
    opens[14] = true;
    let (tried, done) = run(&opens);
    assert_eq!(tried.len(), 15);
    assert_eq!(tried[14], Candidate::System);
    assert_eq!(done, LocateAction::Opened(14));
}

#[test]
fn all_failing_is_exhausted() {
    let (tried, done) = run(&[false; 15]);
    assert_eq!(tried, candidates());
    assert_eq!(done, LocateAction::Exhausted);
}
