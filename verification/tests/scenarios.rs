use cargo_difftests::analysis::{
    AnalysisConfig, AnalysisContext, AnalysisResult, ChangedFile, DirtyAlgorithm, FileMtime,
    GitDiffStrategy, LineRange, RepoState,
};
use cargo_difftests::analysis_data::{
    CoverageData, CoverageFunction, CoverageFunctionRegionSerDe, CoverageMapping, Region,
};
use cargo_difftests::difftest::{TestInfo, Timestamp};
use cargo_difftests::index_data::{
    FileFilterPolicy, IndexDataCompilerConfig, IndexSize, PathRewritePolicy, TestIndex,
};

const ROOT: &str = "/project";

/// The coverage of one test: the function it ran, in a file, over some lines.
fn coverage(function: &str, file: &str, first: usize, last: usize) -> CoverageData {
    let ran = Region::from(CoverageFunctionRegionSerDe([first, 1, last, 2, 1, 0, 0, 0]));
    let idle = Region::from(CoverageFunctionRegionSerDe([90, 1, 95, 2, 0, 0, 0, 0]));
    CoverageData {
        data: vec![CoverageMapping {
            functions: vec![CoverageFunction::new(
                function,
                1,
                vec![format!("{ROOT}/{file}")],
                vec![ran, idle],
                vec![],
            )],
        }],
        kind: "llvm.coverage.json.export".to_string(),
        version: "2.0.1".to_string(),
    }
}

fn info(name: &str) -> TestInfo {
    TestInfo {
        test_name: name.to_string(),
        test_binary: format!("{ROOT}/target/debug/deps/tests"),
        extra: String::new(),
    }
}

/// An analysis of a test that ran at `test_run`, from its index or from its
/// coverage. Paths are relative to the project either way.
fn context(name: &str, data: &CoverageData, test_run: i128, with_index: bool) -> AnalysisContext {
    let config = IndexDataCompilerConfig {
        ignore_registry_files: true,
        remove_bin_path: true,
        index_filename_converter: vec![PathRewritePolicy::RelativeToRoot(ROOT.to_string())],
        accept_file: FileFilterPolicy::IgnoreRegistryPaths,
        index_size: IndexSize::Full,
    };
    let index = TestIndex::index(Timestamp { nanos: test_run }, info(name), data, &config);
    if with_index {
        AnalysisContext::from_index(index)
    } else {
        let relative = CoverageData {
            data: data
                .data
                .iter()
                .map(|m| CoverageMapping {
                    functions: m
                        .functions
                        .iter()
                        .map(|f| {
                            let mut f = f.clone();
                            f.filenames = index.files.clone();
                            f
                        })
                        .collect(),
                })
                .collect(),
            kind: data.kind.clone(),
            version: data.version.clone(),
        };
        AnalysisContext::from_coverage(&relative, Timestamp { nanos: test_run }, info(name))
    }
}

fn analyze(mut cx: AnalysisContext, algorithm: DirtyAlgorithm, state: &RepoState) -> AnalysisResult {
    cx.run(&AnalysisConfig { dirty_algorithm: algorithm }, state).unwrap();
    cx.finish_analysis()
}

fn mtimes(files: &[(&str, i128)]) -> RepoState {
    RepoState::FileSystem {
        files: files
            .iter()
            .map(|&(path, nanos)| FileMtime { path: path.to_string(), mtime: Timestamp { nanos } })
            .collect(),
    }
}

fn diff(files: &[(&str, &[(usize, usize)])]) -> RepoState {
    RepoState::GitDiff {
        changed: files
            .iter()
            .map(|&(path, hunks)| ChangedFile {
                path: path.to_string(),
                hunks: hunks.iter().map(|&(first, last)| LineRange { first, last }).collect(),
            })
            .collect(),
    }
}

fn git(strategy: GitDiffStrategy) -> DirtyAlgorithm {
    DirtyAlgorithm::GitDiff { strategy, commit: None }
}

fn simple_test(with_index: bool) {
    let data = coverage("add", "src/lib.rs", 1, 1);
    let by_mtime = |test_run, state: &RepoState| {
        analyze(context("test_add", &data, test_run, with_index), DirtyAlgorithm::FileSystemMtimes, state)
    };
    let written = mtimes(&[("src/lib.rs", 10), ("tests/tests.rs", 10)]);
    assert_eq!(by_mtime(20, &written), AnalysisResult::Clean);
    let touched = mtimes(&[("src/lib.rs", 30), ("tests/tests.rs", 10)]);
    assert_eq!(by_mtime(20, &touched), AnalysisResult::Dirty);
    assert_eq!(by_mtime(40, &touched), AnalysisResult::Clean);
}

#[test]
fn simple_test_no_index() {
    simple_test(false);
}

#[test]
fn simple_test_with_index() {
    simple_test(true);
}

fn sample_project_test(with_index: bool) {
    let add = coverage("add", "src/lib.rs", 3, 5);
    let sub = coverage("sub", "src/lib.rs", 7, 9);
    let mul = coverage("mul", "src/advanced_arithmetic.rs", 3, 5);
    let div = coverage("div", "src/advanced_arithmetic.rs", 11, 18);
    let by_mtime = |name, data: &CoverageData, test_run, state: &RepoState| {
        analyze(context(name, data, test_run, with_index), DirtyAlgorithm::FileSystemMtimes, state)
    };
    let touched = mtimes(&[("src/lib.rs", 30), ("src/advanced_arithmetic.rs", 10)]);
    assert_eq!(by_mtime("test_add", &add, 20, &touched), AnalysisResult::Dirty);
    assert_eq!(by_mtime("test_sub", &sub, 20, &touched), AnalysisResult::Dirty);
    assert_eq!(by_mtime("test_mul", &mul, 20, &touched), AnalysisResult::Clean);
    assert_eq!(by_mtime("test_div", &div, 20, &touched), AnalysisResult::Clean);

    assert_eq!(by_mtime("test_add", &add, 40, &touched), AnalysisResult::Clean);
    assert_eq!(by_mtime("test_sub", &sub, 20, &touched), AnalysisResult::Dirty);

    assert_eq!(by_mtime("test_sub", &sub, 50, &touched), AnalysisResult::Clean);
    assert_eq!(by_mtime("test_add", &add, 40, &touched), AnalysisResult::Clean);
    assert_eq!(by_mtime("test_mul", &mul, 20, &touched), AnalysisResult::Clean);
    assert_eq!(by_mtime("test_div", &div, 20, &touched), AnalysisResult::Clean);
}

#[test]
fn sample_project_test_no_index() {
    sample_project_test(false);
}

#[test]
fn sample_project_test_with_index() {
    sample_project_test(true);
}

fn test_git_diff_files(with_index: bool) {
    let data = coverage("add", "src/lib.rs", 1, 1);
    let by_files = |state: &RepoState| {
        analyze(context("test_add", &data, 20, with_index), git(GitDiffStrategy::FilesOnly), state)
    };
    assert_eq!(by_files(&diff(&[])), AnalysisResult::Clean);
    assert_eq!(by_files(&diff(&[("src/lib.rs", &[(1, 1)])])), AnalysisResult::Dirty);
    assert_eq!(by_files(&diff(&[])), AnalysisResult::Clean);
}

#[test]
fn test_git_diff_files_no_index() {
    test_git_diff_files(false);
}

#[test]
fn test_git_diff_files_with_index() {
    test_git_diff_files(true);
}

fn test_git_diff_files_with_commit(with_index: bool) {
    let data = coverage("add", "src/lib.rs", 1, 1);
    let by_files = |commit: &str, state: &RepoState| {
        let algorithm = DirtyAlgorithm::GitDiff {
            strategy: GitDiffStrategy::FilesOnly,
            commit: Some(commit.to_string()),
        };
        analyze(context("test_add", &data, 20, with_index), algorithm, state)
    };
    // The working tree is at the third commit, which changed the file.
    let against_second = diff(&[("src/lib.rs", &[(1, 1)])]);
    let against_third = diff(&[]);
    assert_eq!(by_files("commit3", &against_third), AnalysisResult::Clean);
    assert_eq!(by_files("commit2", &against_second), AnalysisResult::Dirty);
    // The file goes back to what it was at the second commit.
    let against_second = diff(&[]);
    let against_third = diff(&[("src/lib.rs", &[(1, 1)])]);
    assert_eq!(by_files("commit2", &against_second), AnalysisResult::Clean);
    assert_eq!(by_files("commit3", &against_third), AnalysisResult::Dirty);
}

#[test]
fn test_git_diff_files_with_commit_no_index() {
    test_git_diff_files_with_commit(false);
}

#[test]
fn test_git_diff_files_with_commit_with_index() {
    test_git_diff_files_with_commit(true);
}

fn test_git_diff_hunks(with_index: bool) {
    // `add` stands on lines 2 to 4 of the file, `sub` on lines 6 to 8 and
    // `extra`, which no test runs, on lines 10 to 12.
    let add = coverage("add", "src/lib.rs", 2, 4);
    let sub = coverage("sub", "src/lib.rs", 6, 8);
    let by_hunks = |name, data: &CoverageData, state: &RepoState| {
        analyze(context(name, data, 20, with_index), git(GitDiffStrategy::Hunks), state)
    };
    let unchanged = diff(&[]);
    assert_eq!(by_hunks("test_add", &add, &unchanged), AnalysisResult::Clean);
    assert_eq!(by_hunks("test_sub", &sub, &unchanged), AnalysisResult::Clean);

    let comment_in_add = diff(&[("src/lib.rs", &[(3, 3)])]);
    assert_eq!(by_hunks("test_add", &add, &comment_in_add), AnalysisResult::Dirty);
    assert_eq!(by_hunks("test_sub", &sub, &comment_in_add), AnalysisResult::Clean);

    let comment_in_sub = diff(&[("src/lib.rs", &[(7, 7)])]);
    assert_eq!(by_hunks("test_add", &add, &comment_in_sub), AnalysisResult::Clean);
    assert_eq!(by_hunks("test_sub", &sub, &comment_in_sub), AnalysisResult::Dirty);

    let comments_in_extra = diff(&[("src/lib.rs", &[(12, 13)])]);
    assert_eq!(by_hunks("test_add", &add, &comments_in_extra), AnalysisResult::Clean);
    assert_eq!(by_hunks("test_sub", &sub, &comments_in_extra), AnalysisResult::Clean);

    assert_eq!(by_hunks("test_add", &add, &unchanged), AnalysisResult::Clean);
    assert_eq!(by_hunks("test_sub", &sub, &unchanged), AnalysisResult::Clean);
}

#[test]
fn test_git_diff_hunks_no_index() {
    test_git_diff_hunks(false);
}

#[test]
fn test_git_diff_hunks_with_index() {
    test_git_diff_hunks(true);
}
