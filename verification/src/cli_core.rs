//! The choices that the command line offers, and what follows from them.

use vstd::prelude::*;
use vstd::std_specs::convert::FromSpecImpl;
use crate::analysis::{AnalysisVerdict, AnalyzeAllSingleGroup, AnalyzeAllSingleTest, GitDiffStrategy};
use crate::difftest::ExportProfdataConfig;
use crate::index_data::{FileFilterPolicy, IndexDataCompilerConfig, IndexSize, PathRewritePolicy};
use crate::paths::DiscoverIndexPathResolver;
use crate::test_rerunner_core::{dirty_groups, dirty_tests, TestRerunnerInvocation};
use crate::text::{clone_list, same_text, texts};

verus! {

/// Where all files of an index are made relative to.
#[derive(Debug, Copy, Clone, PartialEq, Eq, Structural)]
pub enum FlattenFilesTarget {
    /// The root of the repository. Files outside of it stay as they are.
    RepoRoot,
}

impl FlattenFilesTarget {
    /// The word for the target on the command line.
    pub fn to_string(&self) -> (r: String)
        ensures
            r@ == "repo-root"@,
    {
        "repo-root".to_owned()
    }
}

/// How an index is compiled, as far as the command line says.
#[derive(Debug, Copy, Clone)]
pub struct CompileTestIndexFlags {
    /// Where the files of the index are made relative to, if anywhere.
    pub flatten_files_to: Option<FlattenFilesTarget>,
    /// Whether the path of the binary is left out of the index.
    pub remove_bin_path: bool,
    /// Whether the index keeps the regions. Only such an index can be matched
    /// against the hunks of a diff.
    pub full_index: bool,
    /// Whether backslashes in paths are replaced by slashes, where the
    /// platform writes paths with backslashes.
    pub path_slash_replace: bool,
}

impl Default for CompileTestIndexFlags {
    fn default() -> (r: Self)
        ensures
            r.flatten_files_to == Some(FlattenFilesTarget::RepoRoot),
            r.remove_bin_path,
            !r.full_index,
            r.path_slash_replace,
    {
        CompileTestIndexFlags {
            flatten_files_to: Some(FlattenFilesTarget::RepoRoot),
            remove_bin_path: true,
            full_index: false,
            path_slash_replace: true,
        }
    }
}

/// Whether an analysis works from an index.
#[derive(Debug, Copy, Clone, PartialEq, Eq, Structural)]
pub enum AnalysisIndexStrategy {
    /// Always: an index that is missing is compiled first.
    Always,
    /// Where there is an index; where there is none, from the coverage itself.
    IfAvailable,
    /// Never.
    Never,
    /// Always, and the profiling data is cleaned up once the index is written.
    AlwaysAndClean,
}

impl Default for AnalysisIndexStrategy {
    fn default() -> (r: Self)
        ensures
            r == AnalysisIndexStrategy::Never,
    {
        AnalysisIndexStrategy::Never
    }
}

impl AnalysisIndexStrategy {
    /// The word for the strategy on the command line.
    pub fn to_string(&self) -> (r: String)
        ensures
            r@ == match *self {
                AnalysisIndexStrategy::Always => "always"@,
                AnalysisIndexStrategy::IfAvailable => "if-available"@,
                AnalysisIndexStrategy::Never => "never"@,
                AnalysisIndexStrategy::AlwaysAndClean => "always-and-clean"@,
            },
    {
        match self {
            AnalysisIndexStrategy::Always => "always".to_owned(),
            AnalysisIndexStrategy::IfAvailable => "if-available".to_owned(),
            AnalysisIndexStrategy::Never => "never".to_owned(),
            AnalysisIndexStrategy::AlwaysAndClean => "always-and-clean".to_owned(),
        }
    }
}

/// The directory of one test.
#[derive(Debug, Clone)]
pub struct DifftestDir {
    /// The path of the directory.
    pub dir: String,
}

/// Where an index is written: to a given path, or where the roots put it.
#[derive(Debug, Clone)]
pub enum IndexPathOrResolve {
    /// Where the roots put it.
    Resolve,
    /// To this path.
    Path(String),
}

impl From<String> for IndexPathOrResolve {
    fn from(s: String) -> (r: Self) {
        if same_text(s.as_str(), "resolve") {
            IndexPathOrResolve::Resolve
        } else {
            IndexPathOrResolve::Path(s)
        }
    }
}

impl FromSpecImpl<String> for IndexPathOrResolve {
    open spec fn obeys_from_spec() -> bool {
        true
    }

    open spec fn from_spec(s: String) -> Self {
        if s@ == "resolve"@ {
            IndexPathOrResolve::Resolve
        } else {
            IndexPathOrResolve::Path(s)
        }
    }
}

/// What is done with the report on whether two indexes touch the same files.
#[derive(Debug, Copy, Clone, PartialEq, Eq, Structural)]
pub enum IndexesTouchSameFilesReportAction {
    /// It is printed.
    Print,
    /// It is held to be empty: differences are a failure.
    Assert,
}

/// What comes of a report on whether two indexes touch the same files.
#[derive(Debug, Copy, Clone, PartialEq, Eq, Structural)]
pub enum ReportOutcome {
    /// The differences are printed, be there any or none, and all is well.
    PrintDifferences,
    /// There is nothing to tell, and all is well.
    Nothing,
    /// The differences are printed as an error and the command fails: the
    /// indexes do not touch the same files.
    Fail,
}

impl Default for IndexesTouchSameFilesReportAction {
    fn default() -> (r: Self)
        ensures
            r == IndexesTouchSameFilesReportAction::Print,
    {
        IndexesTouchSameFilesReportAction::Print
    }
}

impl IndexesTouchSameFilesReportAction {
    /// What comes of a report, where `same` says whether the indexes touch
    /// the same files.
    pub fn do_for_report(&self, same: bool) -> (r: ReportOutcome)
        ensures
            r == match *self {
                IndexesTouchSameFilesReportAction::Print => ReportOutcome::PrintDifferences,
                IndexesTouchSameFilesReportAction::Assert => if same {
                    ReportOutcome::Nothing
                } else {
                    ReportOutcome::Fail
                },
            },
    {
        match self {
            IndexesTouchSameFilesReportAction::Print => ReportOutcome::PrintDifferences,
            IndexesTouchSameFilesReportAction::Assert => if same {
                ReportOutcome::Nothing
            } else {
                ReportOutcome::Fail
            },
        }
    }

    /// The word for the action on the command line.
    pub fn to_string(&self) -> (r: String)
        ensures
            r@ == match *self {
                IndexesTouchSameFilesReportAction::Print => "print"@,
                IndexesTouchSameFilesReportAction::Assert => "assert"@,
            },
    {
        match self {
            IndexesTouchSameFilesReportAction::Print => "print".to_owned(),
            IndexesTouchSameFilesReportAction::Assert => "assert".to_owned(),
        }
    }
}

/// How to tell that something a test touched has changed, as the command line
/// names it.
#[derive(Debug, Copy, Clone, PartialEq, Eq, Structural)]
pub enum DirtyAlgorithm {
    /// By the time at which each file was last modified.
    FsMtime,
    /// By the files of a diff.
    GitDiffFiles,
    /// By the hunks of a diff.
    GitDiffHunks,
}

impl Default for DirtyAlgorithm {
    fn default() -> (r: Self)
        ensures
            r == DirtyAlgorithm::FsMtime,
    {
        DirtyAlgorithm::FsMtime
    }
}

impl DirtyAlgorithm {
    /// The algorithm that the analysis takes, with the base commit `commit`
    /// where a diff is read.
    pub fn convert(self, commit: Option<String>) -> (r: crate::analysis::DirtyAlgorithm)
        ensures
            r == match self {
                DirtyAlgorithm::FsMtime => crate::analysis::DirtyAlgorithm::FileSystemMtimes,
                DirtyAlgorithm::GitDiffFiles => crate::analysis::DirtyAlgorithm::GitDiff {
                    strategy: GitDiffStrategy::FilesOnly,
                    commit,
                },
                DirtyAlgorithm::GitDiffHunks => crate::analysis::DirtyAlgorithm::GitDiff {
                    strategy: GitDiffStrategy::Hunks,
                    commit,
                },
            },
    {
        match self {
            DirtyAlgorithm::FsMtime => crate::analysis::DirtyAlgorithm::FileSystemMtimes,
            DirtyAlgorithm::GitDiffFiles => crate::analysis::DirtyAlgorithm::GitDiff {
                strategy: GitDiffStrategy::FilesOnly,
                commit,
            },
            DirtyAlgorithm::GitDiffHunks => crate::analysis::DirtyAlgorithm::GitDiff {
                strategy: GitDiffStrategy::Hunks,
                commit,
            },
        }
    }

    /// The word for the algorithm on the command line.
    pub fn to_string(&self) -> (r: String)
        ensures
            r@ == match *self {
                DirtyAlgorithm::FsMtime => "fs-mtime"@,
                DirtyAlgorithm::GitDiffFiles => "git-diff-files"@,
                DirtyAlgorithm::GitDiffHunks => "git-diff-hunks"@,
            },
    {
        match self {
            DirtyAlgorithm::FsMtime => "fs-mtime".to_owned(),
            DirtyAlgorithm::GitDiffFiles => "git-diff-files".to_owned(),
            DirtyAlgorithm::GitDiffHunks => "git-diff-hunks".to_owned(),
        }
    }
}

/// Whether and where an analysis keeps indexes.
#[derive(Debug, Clone)]
pub struct AnalysisIndex {
    /// Whether an index is compiled in any case; then the strategy counts as
    /// `Always`.
    pub compile_index: bool,
    /// The directory below which the indexes are kept.
    pub index_root: Option<String>,
    /// Whether the analysis works from an index.
    pub index_strategy: AnalysisIndexStrategy,
    /// How an index is compiled.
    pub compile_test_index_flags: CompileTestIndexFlags,
}

/// Why no place for the indexes can be named.
#[derive(Debug, Copy, Clone, PartialEq, Eq, Structural)]
pub enum IndexResolverError {
    /// The strategy needs the root of the indexes, and none was given.
    IndexRootIsNone,
    /// The strategy needs the root of the test directories, and none was given.
    RootIsNone,
}

impl IndexResolverError {
    /// The error in words.
    pub fn to_string(&self) -> (r: String)
        ensures
            r@ == match *self {
                IndexResolverError::IndexRootIsNone =>
                "--index-root was not provided, but was required by the --index-strategy"@,
                IndexResolverError::RootIsNone =>
                "--root was not provided, but was required by the --index-strategy"@,
            },
    {
        match self {
            IndexResolverError::IndexRootIsNone => {
                "--index-root was not provided, but was required by the --index-strategy".to_owned()
            },
            IndexResolverError::RootIsNone => {
                "--root was not provided, but was required by the --index-strategy".to_owned()
            },
        }
    }
}

/// The view of an optional resolver: the roots it maps between.
pub open spec fn remap_of(r: Option<DiscoverIndexPathResolver>) -> Option<(Seq<char>, Seq<char>)> {
    match r {
        Some(DiscoverIndexPathResolver::Remap { from, to }) => Some((from@, to@)),
        _ => None,
    }
}

impl AnalysisIndex {
    /// The strategy that counts: `Always` where an index is compiled in any
    /// case, else the one that was chosen.
    pub open spec fn effective_strategy(self) -> AnalysisIndexStrategy {
        if self.compile_index {
            AnalysisIndexStrategy::Always
        } else {
            self.index_strategy
        }
    }

    /// The place of the indexes for test directories below `root`. A strategy
    /// that never works from an index names none. Any other strategy needs the
    /// root of the indexes, and then the root of the test directories; it maps
    /// the second to the first.
    pub fn index_resolver(&self, root: Option<String>) -> (r: Result<
        Option<DiscoverIndexPathResolver>,
        IndexResolverError,
    >)
        ensures
            self.effective_strategy() == AnalysisIndexStrategy::Never ==> r matches Ok(None),
            self.effective_strategy() != AnalysisIndexStrategy::Never && self.index_root.is_none()
                ==> r == Err::<Option<DiscoverIndexPathResolver>, IndexResolverError>(
                IndexResolverError::IndexRootIsNone,
            ),
            self.effective_strategy() != AnalysisIndexStrategy::Never && self.index_root.is_some()
                && root.is_none() ==> r == Err::<
                Option<DiscoverIndexPathResolver>,
                IndexResolverError,
            >(IndexResolverError::RootIsNone),
            self.effective_strategy() != AnalysisIndexStrategy::Never && self.index_root.is_some()
                && root.is_some() ==> (r matches Ok(res) && remap_of(res) == Some(
                (root.unwrap()@, self.index_root.unwrap()@),
            )),
    {
        let index_s = if self.compile_index {
            AnalysisIndexStrategy::Always
        } else {
            self.index_strategy
        };
        match index_s {
            AnalysisIndexStrategy::Never => Ok(None),
            _ => {
                match &self.index_root {
                    None => Err(IndexResolverError::IndexRootIsNone),
                    Some(index_root) => match root {
                        None => Err(IndexResolverError::RootIsNone),
                        Some(from) => Ok(
                            Some(
                                DiscoverIndexPathResolver::Remap { from, to: index_root.clone() },
                            ),
                        ),
                    },
                }
            },
        }
    }
}

/// Which algorithm an analysis takes, and from which commit a diff is read.
#[derive(Debug, Clone)]
pub struct AlgoArgs {
    /// The algorithm.
    pub algo: DirtyAlgorithm,
    /// The base commit of a diff; the one that `HEAD` points to where none is
    /// given.
    pub commit: Option<String>,
}

/// Binaries besides the test's own whose coverage takes part.
#[derive(Debug, Clone)]
pub struct OtherBinaries {
    /// The paths of the binaries.
    pub other_binaries: Vec<String>,
}

/// Whether files of the package registry's cache are left out.
#[derive(Debug, Clone, Copy)]
pub struct IgnoreRegistryFilesFlag {
    /// Whether they are left out.
    pub ignore_registry_files: bool,
}

/// How coverage is exported, as far as the command line says.
#[derive(Debug, Clone)]
pub struct ExportProfdataConfigFlags {
    /// Binaries besides the test's own whose coverage takes part.
    pub other_binaries: OtherBinaries,
}

impl ExportProfdataConfigFlags {
    /// How coverage is exported.
    pub fn config(&self, ignore_registry_files: IgnoreRegistryFilesFlag) -> (r: ExportProfdataConfig)
        ensures
            r.ignore_registry_files == ignore_registry_files.ignore_registry_files,
            texts(r.other_binaries@) == texts(self.other_binaries.other_binaries@),
    {
        ExportProfdataConfig {
            ignore_registry_files: ignore_registry_files.ignore_registry_files,
            other_binaries: clone_list(&self.other_binaries.other_binaries),
        }
    }
}

/// What is done with the verdicts on all tests.
#[derive(Debug, Clone, Copy, PartialEq, Eq, Structural)]
pub enum AnalyzeAllActionKind {
    /// They are printed.
    Print,
    /// They are held to be clean: a dirty test is a failure.
    AssertClean,
    /// The dirty tests are run again.
    RerunDirty,
}

impl Default for AnalyzeAllActionKind {
    fn default() -> (r: Self)
        ensures
            r == AnalyzeAllActionKind::Print,
    {
        AnalyzeAllActionKind::Print
    }
}

impl AnalyzeAllActionKind {
    /// The word for the action on the command line.
    pub fn to_string(&self) -> (r: String)
        ensures
            r@ == match *self {
                AnalyzeAllActionKind::Print => "print"@,
                AnalyzeAllActionKind::AssertClean => "assert-clean"@,
                AnalyzeAllActionKind::RerunDirty => "rerun-dirty"@,
            },
    {
        match self {
            AnalyzeAllActionKind::Print => "print".to_owned(),
            AnalyzeAllActionKind::AssertClean => "assert-clean".to_owned(),
            AnalyzeAllActionKind::RerunDirty => "rerun-dirty".to_owned(),
        }
    }
}

/// The program that runs dirty tests again.
#[derive(Debug, Clone)]
pub struct RerunRunner {
    /// The path of the program.
    pub runner: String,
}

/// What is done with the verdicts on all tests, and by which program.
#[derive(Debug, Clone)]
pub struct AnalyzeAllActionArgs {
    /// What is done.
    pub action: AnalyzeAllActionKind,
    /// The program that runs dirty tests again.
    pub runner: RerunRunner,
}

/// What comes of the verdicts on all tests.
#[derive(Debug)]
pub enum AnalyzeAllOutcome {
    /// The verdicts are printed.
    PrintResults,
    /// There is nothing to do.
    Nothing,
    /// The command fails: some tests are dirty.
    SomeTestsAreDirty,
    /// The runner is started on this invocation.
    Rerun(TestRerunnerInvocation),
}

/// Whether one of the tests is dirty.
pub open spec fn some_test_is_dirty(results: Seq<AnalyzeAllSingleTest>) -> bool {
    exists|i: int| 0 <= i < results.len() && (#[trigger] results[i]).verdict == AnalysisVerdict::Dirty
}

/// Whether one of the tests is dirty.
pub fn any_dirty(results: &Vec<AnalyzeAllSingleTest>) -> (r: bool)
    ensures
        r == some_test_is_dirty(results@),
{
    let mut i: usize = 0;
    while i < results.len()
        invariant
            i <= results.len(),
            forall|k: int| 0 <= k < i ==> (#[trigger] results@[k]).verdict != AnalysisVerdict::Dirty,
        decreases results.len() - i,
    {
        if results[i].verdict == AnalysisVerdict::Dirty {
            return true;
        }
        i += 1;
    }
    false
}

impl AnalyzeAllActionArgs {
    /// What comes of the verdicts `results`. Printing prints them. Holding
    /// them to be clean fails where a test is dirty. Running dirty tests
    /// again starts the runner on the dirty tests, in the order of the
    /// verdicts, unless none is dirty.
    pub fn perform_for(&self, results: &Vec<AnalyzeAllSingleTest>) -> (r: AnalyzeAllOutcome)
        ensures
            match self.action {
                AnalyzeAllActionKind::Print => r is PrintResults,
                AnalyzeAllActionKind::AssertClean => if some_test_is_dirty(results@) {
                    r is SomeTestsAreDirty
                } else {
                    r is Nothing
                },
                AnalyzeAllActionKind::RerunDirty => if dirty_tests(results@).len() == 0 {
                    r is Nothing
                } else {
                    r matches AnalyzeAllOutcome::Rerun(invocation) && invocation.test_views()
                        == dirty_tests(results@) && invocation.group_views().len() == 0
                },
            },
    {
        match self.action {
            AnalyzeAllActionKind::Print => AnalyzeAllOutcome::PrintResults,
            AnalyzeAllActionKind::AssertClean => {
                if any_dirty(results) {
                    AnalyzeAllOutcome::SomeTestsAreDirty
                } else {
                    AnalyzeAllOutcome::Nothing
                }
            },
            AnalyzeAllActionKind::RerunDirty => {
                let groups: Vec<AnalyzeAllSingleGroup> = Vec::new();
                assert(dirty_groups(groups@) =~= Seq::empty());
                let invocation = TestRerunnerInvocation::create_invocation_from_dirty(
                    results,
                    &groups,
                );
                if invocation.is_empty() {
                    AnalyzeAllOutcome::Nothing
                } else {
                    AnalyzeAllOutcome::Rerun(invocation)
                }
            },
        }
    }
}

/// The directory below which the test directories lie, where it is known.
#[derive(Debug, Clone)]
pub struct DifftestsRoot {
    /// The path of the directory.
    pub root: Option<String>,
}

/// The directory below which the test directories lie.
#[derive(Debug, Clone)]
pub struct DifftestsRootRequired {
    /// The path of the directory.
    pub root: String,
}

/// The directory in which test directories are looked for.
#[derive(Debug, Clone)]
pub struct DifftestsRootDir {
    /// The path of the directory.
    pub dir: String,
}

/// Why the settings for compiling an index cannot be made.
#[derive(Debug, Copy, Clone, PartialEq, Eq, Structural)]
pub enum CompileConfigError {
    /// Files are to be made relative to the repository's root, and the
    /// repository has no working directory.
    RepoHasNoWorkdir,
}

/// The steps by which the flags have a file's path written into an index: made
/// relative to `workdir` where flattening is asked for, then written with
/// slashes where the platform writes backslashes and replacing them is asked
/// for.
pub open spec fn rewrite_steps(
    flags: CompileTestIndexFlags,
    workdir: Option<Seq<char>>,
    on_windows: bool,
) -> Seq<RewriteStepView> {
    (if flags.flatten_files_to.is_some() && workdir.is_some() {
        seq![RewriteStepView::RelativeToRoot(workdir.unwrap())]
    } else {
        Seq::empty()
    }) + (if on_windows && flags.path_slash_replace {
        seq![RewriteStepView::PlatformSlashNormalize]
    } else {
        Seq::empty()
    })
}

/// One step in writing a file's path, as a plain value.
pub enum RewriteStepView {
    /// The path as it is.
    Identity,
    /// The path relative to the given root.
    RelativeToRoot(Seq<char>),
    /// The path with `/` between its components.
    PlatformSlashNormalize,
}

/// The step `p` as a plain value.
pub open spec fn step_view(p: PathRewritePolicy) -> RewriteStepView {
    match p {
        PathRewritePolicy::Identity => RewriteStepView::Identity,
        PathRewritePolicy::RelativeToRoot(root) => RewriteStepView::RelativeToRoot(root@),
        PathRewritePolicy::PlatformSlashNormalize => RewriteStepView::PlatformSlashNormalize,
    }
}

/// The steps as plain values, in order.
pub open spec fn step_views(steps: Seq<PathRewritePolicy>) -> Seq<RewriteStepView> {
    steps.map_values(|p: PathRewritePolicy| step_view(p))
}

/// The settings for compiling an index that the flags ask for. `workdir` is
/// the working directory of the repository, where it has one; `on_windows`
/// says whether the platform writes paths with backslashes.
pub fn compile_test_index_config(
    compile_test_index_flags: CompileTestIndexFlags,
    ignore_registry_files: IgnoreRegistryFilesFlag,
    workdir: Option<String>,
    on_windows: bool,
) -> (r: Result<IndexDataCompilerConfig, CompileConfigError>)
    ensures
        compile_test_index_flags.flatten_files_to.is_some() && workdir.is_none() ==> r == Err::<
            IndexDataCompilerConfig,
            CompileConfigError,
        >(CompileConfigError::RepoHasNoWorkdir),
        !(compile_test_index_flags.flatten_files_to.is_some() && workdir.is_none()) ==> match r {
            Ok(config) => {
                &&& config.ignore_registry_files
                &&& config.remove_bin_path == compile_test_index_flags.remove_bin_path
                &&& step_views(config.index_filename_converter@) == rewrite_steps(
                    compile_test_index_flags,
                    crate::paths::text_of(workdir),
                    on_windows,
                )
                &&& config.accept_file == if ignore_registry_files.ignore_registry_files {
                    FileFilterPolicy::IgnoreRegistryPaths
                } else {
                    FileFilterPolicy::AcceptAll
                }
                &&& config.index_size == if compile_test_index_flags.full_index {
                    IndexSize::Full
                } else {
                    IndexSize::Tiny
                }
            },
            Err(_) => false,
        },
{
    let mut steps: Vec<PathRewritePolicy> = Vec::new();
    match compile_test_index_flags.flatten_files_to {
        Some(FlattenFilesTarget::RepoRoot) => {
            match workdir {
                Some(root) => {
                    steps.push(PathRewritePolicy::RelativeToRoot(root));
                },
                None => {
                    return Err(CompileConfigError::RepoHasNoWorkdir);
                },
            }
        },
        None => {},
    }
    if on_windows && compile_test_index_flags.path_slash_replace {
        steps.push(PathRewritePolicy::PlatformSlashNormalize);
    }
    assert(step_views(steps@) =~= rewrite_steps(
        compile_test_index_flags,
        crate::paths::text_of(workdir),
        on_windows,
    ));
    Ok(
        IndexDataCompilerConfig {
            ignore_registry_files: true,
            remove_bin_path: compile_test_index_flags.remove_bin_path,
            index_filename_converter: steps,
            accept_file: if ignore_registry_files.ignore_registry_files {
                FileFilterPolicy::IgnoreRegistryPaths
            } else {
                FileFilterPolicy::AcceptAll
            },
            index_size: if compile_test_index_flags.full_index {
                IndexSize::Full
            } else {
                IndexSize::Tiny
            },
        },
    )
}

/// The place of the indexes for test directories below `tmpdir_root`: below
/// `index_root`, where one is given.
pub fn resolver_for_index_root(tmpdir_root: &str, index_root: Option<String>) -> (r: Option<
    DiscoverIndexPathResolver,
>)
    ensures
        r.is_some() == index_root.is_some(),
        index_root.is_some() ==> remap_of(r) == Some((tmpdir_root@, index_root.unwrap()@)),
{
    match index_root {
        Some(index_root) => Some(
            DiscoverIndexPathResolver::Remap { from: tmpdir_root.to_owned(), to: index_root },
        ),
        None => None,
    }
}

/// The command by which a test has its index compiled and its profiling data
/// cleaned up.
#[derive(Debug, Clone)]
pub struct TestClientCompileIndexAndCleanCommand {
    /// The directory of the test.
    pub dir: DifftestDir,
    /// Where the index is written.
    pub output: IndexPathOrResolve,
    /// How coverage is exported.
    pub export_profdata_config_flags: ExportProfdataConfigFlags,
    /// How the index is compiled.
    pub compile_test_index_flags: CompileTestIndexFlags,
    /// Whether files of the package registry's cache are left out.
    pub ignore_registry_files: IgnoreRegistryFilesFlag,
    /// The directory below which the test directories lie; needed where the
    /// roots say where the index goes.
    pub root: Option<String>,
    /// The directory below which the indexes are kept; needed where the roots
    /// say where the index goes.
    pub index_root: Option<String>,
}

impl TestClientCompileIndexAndCleanCommand {
    /// Whether the command says all it has to: where the roots say where the
    /// index goes, both roots are given.
    pub open spec fn complete(self) -> bool {
        self.output is Resolve ==> self.root.is_some() && self.index_root.is_some()
    }

    /// Whether the command says all it has to.
    pub fn is_complete(&self) -> (r: bool)
        ensures
            r == self.complete(),
    {
        match self.output {
            IndexPathOrResolve::Resolve => self.root.is_some() && self.index_root.is_some(),
            IndexPathOrResolve::Path(_) => true,
        }
    }

    /// Where the index of the test goes: to the given path, whatever the
    /// directory, or from below the one root to below the other.
    pub fn index_resolver(&self) -> (r: DiscoverIndexPathResolver)
        requires
            self.complete(),
        ensures
            match self.output {
                IndexPathOrResolve::Resolve => remap_of(Some(r)) == Some(
                    (self.root.unwrap()@, self.index_root.unwrap()@),
                ),
                IndexPathOrResolve::Path(p) => r matches DiscoverIndexPathResolver::Custom { path }
                    && path@ == p@,
            },
    {
        match &self.output {
            IndexPathOrResolve::Resolve => DiscoverIndexPathResolver::Remap {
                from: self.root.clone().unwrap(),
                to: self.index_root.clone().unwrap(),
            },
            IndexPathOrResolve::Path(p) => DiscoverIndexPathResolver::Custom { path: p.clone() },
        }
    }
}

} // verus!
