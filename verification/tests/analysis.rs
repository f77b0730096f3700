use cargo_difftests::analysis::{
    changed_file_forms, file_system_mtime_analysis, git_diff_files_analysis, git_diff_hunks_analysis, is_dirty,
    lookup_mtime, region_overlaps, AnalysisConfig, AnalysisContext, AnalysisResult,
    AnalysisVerdict, ChangedFile, DirtyAlgorithm, FileMtime, GitDiffStrategy, LineRange,
    RepoState,
};
use cargo_difftests::analysis_data::{
    CoverageData, CoverageFunction, CoverageFunctionRegionSerDe, CoverageMapping, Region,
};
use cargo_difftests::difftest::{DifftestsError, InvalidConfigError, TestInfo, Timestamp};
use cargo_difftests::index_data::{IndexRegion, IndexRegionSerDe, TestIndex};

const T0: Timestamp = Timestamp { nanos: 1_700_000_000_000_000_000 };

fn info() -> TestInfo {
    TestInfo { test_name: "test_add".to_string(), test_binary: String::new(), extra: String::new() }
}

fn scenario_index() -> TestIndex {
    TestIndex {
        regions: vec![IndexRegion::from(IndexRegionSerDe([2, 1, 2, 20, 1, 0]))],
        files: vec!["src/lib.rs".to_string()],
        test_run: T0,
        test_info: info(),
    }
}

fn tiny_index() -> TestIndex {
    TestIndex { regions: vec![], files: vec!["src/lib.rs".to_string()], test_run: T0, test_info: info() }
}

fn fs_mtime() -> AnalysisConfig {
    AnalysisConfig { dirty_algorithm: DirtyAlgorithm::FileSystemMtimes }
}

fn git(strategy: GitDiffStrategy) -> AnalysisConfig {
    AnalysisConfig { dirty_algorithm: DirtyAlgorithm::GitDiff { strategy, commit: None } }
}

fn stat(path: &str, nanos: i128) -> FileMtime {
    FileMtime { path: path.to_string(), mtime: Timestamp { nanos } }
}

fn files(stats: Vec<FileMtime>) -> RepoState {
    RepoState::FileSystem { files: stats }
}

fn changed(path: &str, hunks: &[(usize, usize)]) -> ChangedFile {
    ChangedFile {
        path: path.to_string(),
        hunks: hunks.iter().map(|&(first, last)| LineRange { first, last }).collect(),
    }
}

fn diff(changes: Vec<ChangedFile>) -> RepoState {
    RepoState::GitDiff { changed: changes }
}

fn verdict(index: &TestIndex, config: &AnalysisConfig, state: &RepoState) -> bool {
    is_dirty(index, config, state).unwrap()
}

#[test]
fn no_edits_after_the_run_is_clean_by_mtime() {
    let state = files(vec![stat("src/lib.rs", T0.nanos - 1)]);
    assert!(!verdict(&scenario_index(), &fs_mtime(), &state));
}

#[test]
fn edit_on_a_covered_line_is_dirty_by_mtime_and_by_hunks() {
    let index = scenario_index();
    let state = files(vec![stat("src/lib.rs", T0.nanos + 1)]);
    assert!(verdict(&index, &fs_mtime(), &state));
    let state = diff(vec![changed("src/lib.rs", &[(2, 2)])]);
    assert!(verdict(&index, &git(GitDiffStrategy::Hunks), &state));
}

#[test]
fn edit_outside_the_covered_region_is_clean_by_hunks_and_dirty_by_files() {
    let index = scenario_index();
    let state = diff(vec![changed("src/lib.rs", &[(50, 50)])]);
    assert!(!verdict(&index, &git(GitDiffStrategy::Hunks), &state));
    assert!(verdict(&index, &git(GitDiffStrategy::FilesOnly), &state));
}

#[test]
fn equal_timestamps_are_clean() {
    let state = files(vec![stat("src/lib.rs", T0.nanos)]);
    assert!(!verdict(&scenario_index(), &fs_mtime(), &state));
}

#[test]
fn a_missing_file_is_dirty() {
    let state = files(vec![stat("src/other.rs", 0)]);
    assert!(verdict(&scenario_index(), &fs_mtime(), &state));
    assert!(verdict(&scenario_index(), &fs_mtime(), &files(vec![])));
}

#[test]
fn files_that_were_not_touched_make_nothing_dirty() {
    let index = scenario_index();
    let state = files(vec![stat("src/lib.rs", T0.nanos - 5), stat("src/other.rs", T0.nanos + 100)]);
    assert!(!verdict(&index, &fs_mtime(), &state));
    let state = diff(vec![changed("src/other.rs", &[(1, 100)]), changed("README.md", &[(2, 2)])]);
    assert!(!verdict(&index, &git(GitDiffStrategy::FilesOnly), &state));
    assert!(!verdict(&index, &git(GitDiffStrategy::Hunks), &state));
}

#[test]
fn the_verdict_does_not_depend_on_the_order_of_the_files() {
    let index = TestIndex {
        regions: vec![],
        files: vec!["a.rs".to_string(), "b.rs".to_string(), "c.rs".to_string()],
        test_run: T0,
        test_info: info(),
    };
    let state = files(vec![stat("c.rs", T0.nanos + 1), stat("a.rs", 0), stat("b.rs", 0)]);
    assert!(verdict(&index, &fs_mtime(), &state));
    let other_order = TestIndex {
        regions: vec![],
        files: vec!["c.rs".to_string(), "b.rs".to_string(), "a.rs".to_string()],
        test_run: T0,
        test_info: info(),
    };
    assert!(verdict(&other_order, &fs_mtime(), &state));
    let clean = files(vec![stat("c.rs", 0), stat("a.rs", 0), stat("b.rs", 0)]);
    assert!(!verdict(&index, &fs_mtime(), &clean));
    assert!(!verdict(&other_order, &fs_mtime(), &clean));
}

#[test]
fn the_first_entry_of_a_file_counts() {
    let list = vec![stat("a.rs", 1), stat("a.rs", 2)];
    assert_eq!(lookup_mtime(&list, "a.rs"), Some(Timestamp { nanos: 1 }));
    assert_eq!(lookup_mtime(&list, "b.rs"), None);
}

#[test]
fn hunks_overlap_regions_on_a_shared_line_only() {
    let region = IndexRegion::from(IndexRegionSerDe([10, 1, 20, 5, 1, 0]));
    let overlap = |first, last| region_overlaps(&region, &LineRange { first, last });
    assert!(overlap(20, 25));
    assert!(overlap(5, 10));
    assert!(overlap(12, 13));
    assert!(overlap(1, 100));
    assert!(!overlap(21, 25));
    assert!(!overlap(1, 9));
    assert!(!overlap(15, 14));
}

#[test]
fn a_region_before_or_after_all_hunks_is_clean() {
    let index = TestIndex {
        regions: vec![IndexRegion::from(IndexRegionSerDe([10, 1, 20, 5, 1, 0]))],
        files: vec!["src/lib.rs".to_string()],
        test_run: T0,
        test_info: info(),
    };
    let hunks = git(GitDiffStrategy::Hunks);
    assert!(!verdict(&index, &hunks, &diff(vec![changed("src/lib.rs", &[(1, 9), (21, 30)])])));
    assert!(verdict(&index, &hunks, &diff(vec![changed("src/lib.rs", &[(1, 9), (20, 30)])])));
    assert!(verdict(&index, &hunks, &diff(vec![changed("src/lib.rs", &[(1, 10)])])));
    assert!(!verdict(&index, &hunks, &diff(vec![changed("src/other.rs", &[(10, 20)])])));
    assert!(!verdict(&index, &hunks, &diff(vec![changed("src/lib.rs", &[])])));
}

#[test]
fn regions_are_matched_against_the_hunks_of_their_own_file() {
    let index = TestIndex {
        regions: vec![
            IndexRegion::from(IndexRegionSerDe([1, 1, 5, 1, 1, 0])),
            IndexRegion::from(IndexRegionSerDe([100, 1, 105, 1, 1, 1])),
        ],
        files: vec!["a.rs".to_string(), "b.rs".to_string()],
        test_run: T0,
        test_info: info(),
    };
    let hunks = git(GitDiffStrategy::Hunks);
    assert!(!verdict(&index, &hunks, &diff(vec![changed("a.rs", &[(100, 105)]), changed("b.rs", &[(1, 5)])])));
    assert!(verdict(&index, &hunks, &diff(vec![changed("b.rs", &[(105, 105)])])));
    assert!(git_diff_hunks_analysis(
        &index.files,
        &index.regions,
        &vec![changed("a.rs", &[(5, 6)])]
    ));
}

#[test]
fn hunks_against_a_tiny_index_is_a_configuration_error() {
    let hunks = git(GitDiffStrategy::Hunks);
    for state in [diff(vec![]), diff(vec![changed("src/lib.rs", &[(2, 2)])])] {
        match is_dirty(&tiny_index(), &hunks, &state) {
            Err(DifftestsError::InvalidConfig(InvalidConfigError::IndexHasNoRegions)) => {}
            other => panic!("expected a configuration error, got {:?}", other),
        }
    }
    assert!(verdict(&tiny_index(), &git(GitDiffStrategy::FilesOnly), &diff(vec![changed("src/lib.rs", &[])])));
}

#[test]
fn an_empty_index_is_clean_under_every_algorithm() {
    let empty = TestIndex { regions: vec![], files: vec![], test_run: T0, test_info: info() };
    assert!(!verdict(&empty, &fs_mtime(), &files(vec![stat("a.rs", T0.nanos + 9)])));
    let state = diff(vec![changed("a.rs", &[(1, 2)])]);
    assert!(!verdict(&empty, &git(GitDiffStrategy::FilesOnly), &state));
    assert!(!verdict(&empty, &git(GitDiffStrategy::Hunks), &state));
}

#[test]
fn a_state_of_the_wrong_kind_is_a_configuration_error() {
    let index = scenario_index();
    for (config, state) in [
        (fs_mtime(), diff(vec![])),
        (git(GitDiffStrategy::FilesOnly), files(vec![])),
        (git(GitDiffStrategy::Hunks), files(vec![])),
    ] {
        match is_dirty(&index, &config, &state) {
            Err(DifftestsError::InvalidConfig(InvalidConfigError::StateDoesNotFitAlgorithm)) => {}
            other => panic!("expected a configuration error, got {:?}", other),
        }
    }
}

#[test]
fn the_single_algorithms_agree_with_the_decision() {
    let touched = vec!["a.rs".to_string(), "b.rs".to_string()];
    assert!(file_system_mtime_analysis(&touched, T0, &vec![stat("a.rs", 0)]));
    assert!(!file_system_mtime_analysis(&touched, T0, &vec![stat("a.rs", 0), stat("b.rs", 0)]));
    assert!(git_diff_files_analysis(&touched, &vec![changed("b.rs", &[])]));
    assert!(!git_diff_files_analysis(&touched, &vec![changed("c.rs", &[(1, 1)])]));
}

#[test]
fn a_context_runs_once_and_gives_its_verdict() {
    let mut cx = AnalysisContext::from_index(scenario_index());
    assert!(!cx.is_finished());
    assert_eq!(cx.touched_files(), vec!["src/lib.rs".to_string()]);
    assert_eq!(cx.test_run_at(), T0);
    cx.run(&fs_mtime(), &files(vec![stat("src/lib.rs", T0.nanos + 1)])).unwrap();
    assert!(cx.is_finished());
    assert_eq!(cx.finish_analysis(), AnalysisResult::Dirty);

    let mut cx = AnalysisContext::from_index(scenario_index());
    cx.run(&git(GitDiffStrategy::Hunks), &diff(vec![changed("src/lib.rs", &[(50, 50)])])).unwrap();
    assert_eq!(cx.finish_analysis(), AnalysisResult::Clean);
}

#[test]
fn a_context_that_fails_has_not_run() {
    let mut cx = AnalysisContext::from_index(tiny_index());
    let r = cx.run(&git(GitDiffStrategy::Hunks), &diff(vec![]));
    assert!(matches!(
        r,
        Err(DifftestsError::InvalidConfig(InvalidConfigError::IndexHasNoRegions))
    ));
    assert!(!cx.is_finished());
    cx.run(&git(GitDiffStrategy::FilesOnly), &diff(vec![])).unwrap();
    assert_eq!(cx.finish_analysis(), AnalysisResult::Clean);
}

#[test]
fn a_context_from_coverage_counts_as_a_full_index() {
    let region = |l1, l2, count, file_id| {
        Region::from(CoverageFunctionRegionSerDe([l1, 1, l2, 1, count, file_id, 0, 0]))
    };
    let data = CoverageData {
        data: vec![CoverageMapping {
            functions: vec![CoverageFunction::new(
                "add",
                1,
                vec!["src/lib.rs".to_string(), "/u/.cargo/registry/dep/lib.rs".to_string()],
                vec![region(2, 2, 1, 0), region(30, 40, 0, 0), region(1, 9, 1, 1)],
                vec![],
            )],
        }],
        kind: String::new(),
        version: String::new(),
    };
    let hunks = git(GitDiffStrategy::Hunks);
    let mut cx = AnalysisContext::from_coverage(&data, T0, info());
    assert_eq!(cx.touched_files(), vec!["src/lib.rs".to_string()]);
    cx.run(&hunks, &diff(vec![changed("src/lib.rs", &[(30, 40)])])).unwrap();
    assert_eq!(cx.finish_analysis(), AnalysisResult::Clean);
    let mut cx = AnalysisContext::from_coverage(&data, T0, info());
    cx.run(&hunks, &diff(vec![changed("src/lib.rs", &[(1, 2)])])).unwrap();
    assert_eq!(cx.finish_analysis(), AnalysisResult::Dirty);
}

#[test]
fn hunks_are_counted_in_lines_of_the_working_tree() {
    assert_eq!(LineRange::of_hunk(3, 1), LineRange { first: 3, last: 3 });
    assert_eq!(LineRange::of_hunk(3, 4), LineRange { first: 3, last: 6 });
    assert_eq!(LineRange::of_hunk(4, 0), LineRange { first: 4, last: 5 });
    assert_eq!(LineRange::of_hunk(0, 0), LineRange { first: 0, last: 1 });
    let hunks = vec![LineRange { first: 1, last: 2 }];
    let forms = changed_file_forms("src/lib.rs", Some("/work"), &hunks);
    let paths: Vec<&str> = forms.iter().map(|c| c.path.as_str()).collect();
    assert_eq!(paths, vec!["src/lib.rs", "/work/src/lib.rs"]);
    assert!(forms.iter().all(|c| c.hunks == hunks));
    let forms = changed_file_forms("src/lib.rs", None, &hunks);
    assert_eq!(forms.len(), 1);
    assert_eq!(forms[0].path, "src/lib.rs");
}

#[test]
fn verdicts_are_reported_by_their_words() {
    assert_eq!(AnalysisVerdict::from(AnalysisResult::Clean), AnalysisVerdict::Clean);
    assert_eq!(AnalysisVerdict::from(AnalysisResult::Dirty), AnalysisVerdict::Dirty);
    assert_eq!(AnalysisVerdict::Clean.as_str(), "clean");
    assert_eq!(AnalysisVerdict::Dirty.as_str(), "dirty");
}
