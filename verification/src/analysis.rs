//! Deciding whether a test has to run again: the three ways of telling that
//! something it touched has changed, and the context that holds one analysis
//! from its start to its verdict.

use vstd::prelude::*;
use vstd::std_specs::convert::FromSpecImpl;
use crate::analysis_data::CoverageData;
use crate::difftest::{DifftestsError, InvalidConfigError, TestInfo, Timestamp};
use crate::index_data::{
    index_files, index_regions, touches, FileFilterPolicy, IndexDataCompilerConfig, IndexRegion,
    IndexSize, PathRewritePolicy, TestIndex,
};
use crate::paths::{join, path_joined};
use crate::text::{clone_list, same_text, texts};

verus! {

/// What an analysis finds: whether the test's result still stands.
#[derive(Clone, Copy, Debug, PartialEq, Eq, Structural)]
pub enum AnalysisResult {
    /// Nothing that the test touched has changed.
    Clean,
    /// Something that the test touched has changed: the test has to run again.
    Dirty,
}

/// The verdict on a test, as it is reported.
#[derive(Clone, Copy, Debug, PartialEq, Eq, Structural)]
pub enum AnalysisVerdict {
    /// The test's result still stands.
    Clean,
    /// The test has to run again.
    Dirty,
}

impl From<AnalysisResult> for AnalysisVerdict {
    fn from(r: AnalysisResult) -> (v: Self) {
        match r {
            AnalysisResult::Clean => AnalysisVerdict::Clean,
            AnalysisResult::Dirty => AnalysisVerdict::Dirty,
        }
    }
}

impl FromSpecImpl<AnalysisResult> for AnalysisVerdict {
    open spec fn obeys_from_spec() -> bool {
        true
    }

    open spec fn from_spec(r: AnalysisResult) -> Self {
        match r {
            AnalysisResult::Clean => AnalysisVerdict::Clean,
            AnalysisResult::Dirty => AnalysisVerdict::Dirty,
        }
    }
}

impl AnalysisVerdict {
    /// The word that the verdict is printed as.
    pub fn as_str(&self) -> (r: &'static str)
        ensures
            r@ == match *self {
                AnalysisVerdict::Clean => "clean"@,
                AnalysisVerdict::Dirty => "dirty"@,
            },
    {
        match self {
            AnalysisVerdict::Clean => "clean",
            AnalysisVerdict::Dirty => "dirty",
        }
    }
}

/// A test and the verdict on it.
#[derive(Debug)]
pub struct AnalyzeAllSingleTest {
    /// What identifies the test.
    pub test_info: TestInfo,
    /// The verdict on the test.
    pub verdict: AnalysisVerdict,
}

/// What identifies a group.
#[derive(Clone, Debug)]
pub struct GroupInfo {
    /// The name of the group.
    pub group_name: String,
    /// The binary that the group's tests share.
    pub bin_path: String,
    /// What else the caller supplied to identify the group, kept as it came.
    pub extra: String,
}

impl GroupInfo {
    /// A copy of this description.
    pub fn duplicate(&self) -> (r: GroupInfo)
        ensures
            r.group_name@ == self.group_name@,
            r.bin_path@ == self.bin_path@,
            r.extra@ == self.extra@,
    {
        GroupInfo {
            group_name: self.group_name.clone(),
            bin_path: self.bin_path.clone(),
            extra: self.extra.clone(),
        }
    }
}

/// A group and the verdict on it.
#[derive(Debug)]
pub struct AnalyzeAllSingleGroup {
    /// What identifies the group.
    pub group_info: GroupInfo,
    /// The verdict on the group.
    pub verdict: AnalysisVerdict,
}

/// How much of a diff is held against the index.
#[derive(Clone, Copy, Debug, PartialEq, Eq, Structural)]
pub enum GitDiffStrategy {
    /// The files that changed.
    FilesOnly,
    /// The lines that changed, held against the regions that ran.
    Hunks,
}

/// How to tell that something a test touched has changed.
#[derive(Clone, Debug)]
pub enum DirtyAlgorithm {
    /// By the time at which each file was last modified.
    FileSystemMtimes,
    /// By the diff between a commit and the working tree; the commit that
    /// `HEAD` points to where none is given.
    GitDiff { strategy: GitDiffStrategy, commit: Option<String> },
}

/// The configuration of an analysis.
#[derive(Clone, Debug)]
pub struct AnalysisConfig {
    /// How to tell that something has changed.
    pub dirty_algorithm: DirtyAlgorithm,
}

/// A file that exists, and when it was last modified.
#[derive(Clone, Debug)]
pub struct FileMtime {
    /// The path of the file, written as the index writes it.
    pub path: String,
    /// When the file was last modified.
    pub mtime: Timestamp,
}

/// A run of lines, both ends included. A run whose last line lies before its
/// first holds no line.
#[derive(Clone, Copy, Debug, PartialEq, Eq, Structural)]
pub struct LineRange {
    /// The first line of the run.
    pub first: usize,
    /// The last line of the run.
    pub last: usize,
}

impl LineRange {
    /// The lines of a hunk of a diff, numbered as in the working tree: the
    /// hunk starts at line `new_start` there and has `new_lines` lines.
    pub open spec fn hunk_lines(new_start: u32, new_lines: u32) -> LineRange {
        if new_lines == 0 {
            LineRange { first: new_start as usize, last: (new_start + 1) as usize }
        } else {
            LineRange { first: new_start as usize, last: (new_start + new_lines - 1) as usize }
        }
    }

    /// The lines of a hunk of a diff, numbered as in the working tree. A hunk
    /// that only deletes has no line of its own there: it counts as the two
    /// lines that the deletion lies between, so that a region around the
    /// deletion is hit.
    pub fn of_hunk(new_start: u32, new_lines: u32) -> (r: LineRange)
        requires
            new_start + new_lines < usize::MAX,
        ensures
            r == LineRange::hunk_lines(new_start, new_lines),
    {
        let first: usize = new_start as usize;
        if new_lines == 0 {
            LineRange { first, last: first + 1 }
        } else {
            LineRange { first, last: first + (new_lines as usize - 1) }
        }
    }
}

/// A file that differs from the base commit, and where.
#[derive(Clone, Debug)]
pub struct ChangedFile {
    /// The path of the file, written as the index writes it.
    pub path: String,
    /// The lines that changed, numbered as in the working tree.
    pub hunks: Vec<LineRange>,
}

/// The ways in which an index may name the file that the repository has at
/// `path`: by that path, and by the path below the working directory.
pub open spec fn written_forms(path: Seq<char>, workdir: Option<Seq<char>>) -> Seq<Seq<char>> {
    match workdir {
        Some(root) => seq![path, path_joined(root, path)],
        None => seq![path],
    }
}

/// The paths of the changed files, in order.
pub open spec fn changed_paths(changed: Seq<ChangedFile>) -> Seq<Seq<char>> {
    changed.map_values(|c: ChangedFile| c.path@)
}

/// A changed file of the repository in each way in which an index may name
/// it, with the same hunks each time.
pub fn changed_file_forms(path: &str, workdir: Option<&str>, hunks: &Vec<LineRange>) -> (r: Vec<
    ChangedFile,
>)
    ensures
        changed_paths(r@) == written_forms(
            path@,
            match workdir {
                Some(root) => Some(root@),
                None => None,
            },
        ),
        forall|i: int| 0 <= i < r@.len() ==> (#[trigger] r@[i]).hunks@ == hunks@,
{
    let mut out: Vec<ChangedFile> = Vec::new();
    out.push(ChangedFile { path: path.to_owned(), hunks: hunks.clone() });
    match workdir {
        Some(root) => {
            out.push(ChangedFile { path: join(root, path), hunks: hunks.clone() });
            assert(changed_paths(out@) =~= seq![path@, path_joined(root@, path@)]);
        },
        None => {
            assert(changed_paths(out@) =~= seq![path@]);
        },
    }
    out
}

/// What was observed of the repository for an analysis.
#[derive(Clone, Debug)]
pub enum RepoState {
    /// The files that exist, each with the time it was last modified. A file
    /// that is not listed does not exist.
    FileSystem { files: Vec<FileMtime> },
    /// The files that differ from the base commit. A file that is not listed
    /// has not changed.
    GitDiff { changed: Vec<ChangedFile> },
}

/// When the file at `path` was last modified, or `None` where it does not
/// exist. Where a file is listed twice the first entry counts.
pub open spec fn mtime_of(files: Seq<FileMtime>, path: Seq<char>) -> Option<Timestamp>
    decreases files.len(),
{
    if files.len() == 0 {
        None
    } else if files[0].path@ == path {
        Some(files[0].mtime)
    } else {
        mtime_of(files.drop_first(), path)
    }
}

/// Whether the file at `path` has changed since `test_run`, going by the time
/// it was last modified: it is gone, or it was modified strictly later.
pub open spec fn modified_since(files: Seq<FileMtime>, path: Seq<char>, test_run: Timestamp) -> bool {
    match mtime_of(files, path) {
        None => true,
        Some(mtime) => mtime.nanos > test_run.nanos,
    }
}

/// Whether one of the files that the test touched has changed since the test
/// ran, going by the times of last modification.
pub open spec fn dirty_by_mtimes(
    touched: Seq<Seq<char>>,
    test_run: Timestamp,
    files: Seq<FileMtime>,
) -> bool {
    exists|i: int| 0 <= i < touched.len() && modified_since(files, #[trigger] touched[i], test_run)
}

/// Whether the file at `path` is among the changed files.
pub open spec fn is_changed(changed: Seq<ChangedFile>, path: Seq<char>) -> bool {
    exists|j: int| 0 <= j < changed.len() && (#[trigger] changed[j]).path@ == path
}

/// Whether one of the files that the test touched is among the changed files.
pub open spec fn dirty_by_files(touched: Seq<Seq<char>>, changed: Seq<ChangedFile>) -> bool {
    exists|i: int| 0 <= i < touched.len() && is_changed(changed, #[trigger] touched[i])
}

/// Whether the region and the run of lines share a line.
pub open spec fn overlaps(region: IndexRegion, hunk: LineRange) -> bool {
    &&& region.l1 <= region.l2
    &&& hunk.first <= hunk.last
    &&& region.l1 <= hunk.last
    &&& hunk.first <= region.l2
}

/// Whether the region shares a line with one of the hunks.
pub open spec fn hit_by_hunks(region: IndexRegion, hunks: Seq<LineRange>) -> bool {
    exists|h: int| 0 <= h < hunks.len() && overlaps(region, #[trigger] hunks[h])
}

/// Whether the region, which lies in `file`, shares a line with a hunk of a
/// changed file of that path.
pub open spec fn hit_by_changes(region: IndexRegion, file: Seq<char>, changed: Seq<ChangedFile>) -> bool {
    exists|j: int|
        0 <= j < changed.len() && (#[trigger] changed[j]).path@ == file && hit_by_hunks(
            region,
            changed[j].hunks@,
        )
}

/// Whether one of the regions that the test ran shares a line with a hunk of
/// the file it lies in.
pub open spec fn dirty_by_hunks(
    touched: Seq<Seq<char>>,
    regions: Seq<IndexRegion>,
    changed: Seq<ChangedFile>,
) -> bool {
    exists|k: int|
        0 <= k < regions.len() && hit_by_changes(
            #[trigger] regions[k],
            touched[regions[k].file_id as int],
            changed,
        )
}

/// What the analysis of an index with the files `touched`, the regions
/// `regions` and the time `test_run` comes to, under `algorithm` and with the
/// repository as `state` has it.
///
/// Matching by hunks against an index that holds files but no regions is an
/// error, and so is a state of another kind than the algorithm reads.
pub open spec fn verdict(
    touched: Seq<Seq<char>>,
    regions: Seq<IndexRegion>,
    test_run: Timestamp,
    algorithm: DirtyAlgorithm,
    state: RepoState,
) -> Result<bool, InvalidConfigError> {
    match (algorithm, state) {
        (DirtyAlgorithm::FileSystemMtimes, RepoState::FileSystem { files }) => Ok(
            dirty_by_mtimes(touched, test_run, files@),
        ),
        (
            DirtyAlgorithm::GitDiff { strategy: GitDiffStrategy::FilesOnly, .. },
            RepoState::GitDiff { changed },
        ) => Ok(dirty_by_files(touched, changed@)),
        (
            DirtyAlgorithm::GitDiff { strategy: GitDiffStrategy::Hunks, .. },
            RepoState::GitDiff { changed },
        ) => if regions.len() == 0 && touched.len() > 0 {
            Err(InvalidConfigError::IndexHasNoRegions)
        } else {
            Ok(dirty_by_hunks(touched, regions, changed@))
        },
        _ => Err(InvalidConfigError::StateDoesNotFitAlgorithm),
    }
}

/// When the file at `path` was last modified, or `None` where it does not exist.
pub fn lookup_mtime(files: &Vec<FileMtime>, path: &str) -> (r: Option<Timestamp>)
    ensures
        r == mtime_of(files@, path@),
{
    let mut i: usize = 0;
    assert(files@.skip(0) =~= files@);
    while i < files.len()
        invariant
            i <= files.len(),
            mtime_of(files@, path@) == mtime_of(files@.skip(i as int), path@),
        decreases files.len() - i,
    {
        assert(files@.skip(i as int).drop_first() =~= files@.skip(i + 1));
        if same_text(files[i].path.as_str(), path) {
            return Some(files[i].mtime);
        }
        i += 1;
    }
    None
}

/// Whether one of the touched files has changed since the test ran, going by
/// the times of last modification. Stops at the first such file.
pub fn file_system_mtime_analysis(
    touched: &Vec<String>,
    test_run: Timestamp,
    files: &Vec<FileMtime>,
) -> (r: bool)
    ensures
        r == dirty_by_mtimes(texts(touched@), test_run, files@),
{
    let mut i: usize = 0;
    while i < touched.len()
        invariant
            i <= touched.len(),
            forall|k: int| 0 <= k < i ==> !modified_since(files@, #[trigger] texts(touched@)[k], test_run),
        decreases touched.len() - i,
    {
        let modified = match lookup_mtime(files, touched[i].as_str()) {
            None => true,
            Some(mtime) => mtime.is_after(&test_run),
        };
        if modified {
            assert(modified_since(files@, texts(touched@)[i as int], test_run));
            return true;
        }
        i += 1;
    }
    false
}

/// The position of a changed file with the path `path`, if there is one.
pub fn find_changed(changed: &Vec<ChangedFile>, path: &str) -> (r: Option<usize>)
    ensures
        r.is_some() == is_changed(changed@, path@),
        match r {
            Some(j) => j < changed@.len() && changed@[j as int].path@ == path@,
            None => true,
        },
{
    let mut j: usize = 0;
    while j < changed.len()
        invariant
            j <= changed.len(),
            forall|k: int| 0 <= k < j ==> (#[trigger] changed@[k]).path@ != path@,
        decreases changed.len() - j,
    {
        if same_text(changed[j].path.as_str(), path) {
            return Some(j);
        }
        j += 1;
    }
    None
}

/// Whether one of the touched files is among the changed files.
pub fn git_diff_files_analysis(touched: &Vec<String>, changed: &Vec<ChangedFile>) -> (r: bool)
    ensures
        r == dirty_by_files(texts(touched@), changed@),
{
    let mut i: usize = 0;
    while i < touched.len()
        invariant
            i <= touched.len(),
            forall|k: int| 0 <= k < i ==> !is_changed(changed@, #[trigger] texts(touched@)[k]),
        decreases touched.len() - i,
    {
        if find_changed(changed, touched[i].as_str()).is_some() {
            assert(is_changed(changed@, texts(touched@)[i as int]));
            return true;
        }
        i += 1;
    }
    false
}

/// Whether the region and the run of lines share a line.
pub fn region_overlaps(region: &IndexRegion, hunk: &LineRange) -> (r: bool)
    ensures
        r == overlaps(*region, *hunk),
{
    region.l1 <= region.l2 && hunk.first <= hunk.last && region.l1 <= hunk.last && hunk.first
        <= region.l2
}

/// Whether the region shares a line with one of the hunks.
pub fn region_hit_by_hunks(region: &IndexRegion, hunks: &Vec<LineRange>) -> (r: bool)
    ensures
        r == hit_by_hunks(*region, hunks@),
{
    let mut h: usize = 0;
    while h < hunks.len()
        invariant
            h <= hunks.len(),
            forall|k: int| 0 <= k < h ==> !overlaps(*region, #[trigger] hunks@[k]),
        decreases hunks.len() - h,
    {
        if region_overlaps(region, &hunks[h]) {
            return true;
        }
        h += 1;
    }
    false
}

/// Whether the region, which lies in `file`, shares a line with a hunk of a
/// changed file of that path.
pub fn region_hit_by_changes(region: &IndexRegion, file: &str, changed: &Vec<ChangedFile>) -> (r:
    bool)
    ensures
        r == hit_by_changes(*region, file@, changed@),
{
    let mut j: usize = 0;
    while j < changed.len()
        invariant
            j <= changed.len(),
            forall|k: int|
                0 <= k < j ==> !((#[trigger] changed@[k]).path@ == file@ && hit_by_hunks(
                    *region,
                    changed@[k].hunks@,
                )),
        decreases changed.len() - j,
    {
        if same_text(changed[j].path.as_str(), file) && region_hit_by_hunks(
            region,
            &changed[j].hunks,
        ) {
            return true;
        }
        j += 1;
    }
    false
}

/// Whether one of the regions that the test ran shares a line with a hunk of
/// the file it lies in.
pub fn git_diff_hunks_analysis(
    touched: &Vec<String>,
    regions: &Vec<IndexRegion>,
    changed: &Vec<ChangedFile>,
) -> (r: bool)
    requires
        forall|k: int| 0 <= k < regions@.len() ==> (#[trigger] regions@[k]).file_id < touched@.len(),
    ensures
        r == dirty_by_hunks(texts(touched@), regions@, changed@),
{
    let mut k: usize = 0;
    while k < regions.len()
        invariant
            k <= regions.len(),
            forall|n: int|
                0 <= n < regions@.len() ==> (#[trigger] regions@[n]).file_id < touched@.len(),
            forall|n: int|
                0 <= n < k ==> !hit_by_changes(
                    #[trigger] regions@[n],
                    texts(touched@)[regions@[n].file_id as int],
                    changed@,
                ),
        decreases regions.len() - k,
    {
        let region = &regions[k];
        if region_hit_by_changes(region, touched[region.file_id].as_str(), changed) {
            return true;
        }
        k += 1;
    }
    false
}

/// Decides whether the test of `index` has to run again, under the algorithm
/// of `config` and with the repository as `state` has it.
///
/// Succeeds with `true` for dirty and `false` for clean. Fails where hunks are
/// asked of an index that holds files but no regions, and where `state` is not
/// of the kind that the algorithm reads; it never turns to another algorithm.
pub fn is_dirty(index: &TestIndex, config: &AnalysisConfig, state: &RepoState) -> (r: Result<
    bool,
    DifftestsError,
>)
    requires
        index.wf(),
    ensures
        match verdict(
            texts(index.files@),
            index.regions@,
            index.test_run,
            config.dirty_algorithm,
            *state,
        ) {
            Ok(dirty) => r == Ok::<bool, DifftestsError>(dirty),
            Err(e) => r == Err::<bool, DifftestsError>(DifftestsError::InvalidConfig(e)),
        },
{
    assert(texts(index.files@).len() == index.files@.len());
    match (&config.dirty_algorithm, state) {
        (DirtyAlgorithm::FileSystemMtimes, RepoState::FileSystem { files }) => Ok(
            file_system_mtime_analysis(&index.files, index.test_run, files),
        ),
        (DirtyAlgorithm::GitDiff { strategy, .. }, RepoState::GitDiff { changed }) => {
            match strategy {
                GitDiffStrategy::FilesOnly => Ok(git_diff_files_analysis(&index.files, changed)),
                GitDiffStrategy::Hunks => {
                    if index.regions.len() == 0 && index.files.len() > 0 {
                        Err(DifftestsError::InvalidConfig(InvalidConfigError::IndexHasNoRegions))
                    } else {
                        Ok(git_diff_hunks_analysis(&index.files, &index.regions, changed))
                    }
                },
            }
        },
        _ => Err(DifftestsError::InvalidConfig(InvalidConfigError::StateDoesNotFitAlgorithm)),
    }
}

/// The result that stands for a decision.
pub open spec fn result_of(dirty: bool) -> AnalysisResult {
    if dirty {
        AnalysisResult::Dirty
    } else {
        AnalysisResult::Clean
    }
}

/// One analysis, from its start to its verdict. It is created from an index or
/// from a coverage report, run once, and then gives its verdict up.
pub struct AnalysisContext {
    index: TestIndex,
    result: Option<AnalysisResult>,
}

impl AnalysisContext {
    #[verifier::type_invariant]
    spec fn well_formed(self) -> bool {
        self.index.wf()
    }

    /// The files that the test touched.
    pub closed spec fn touched(self) -> Seq<Seq<char>> {
        texts(self.index.files@)
    }

    /// The regions that the test ran.
    pub closed spec fn regions(self) -> Seq<IndexRegion> {
        self.index.regions@
    }

    /// When the test ran.
    pub closed spec fn test_run(self) -> Timestamp {
        self.index.test_run
    }

    /// The verdict, once the analysis has run; `None` before.
    pub closed spec fn outcome(self) -> Option<AnalysisResult> {
        self.result
    }

    /// An analysis of the test whose index is `index`, not yet run.
    pub fn from_index(index: TestIndex) -> (r: Self)
        requires
            index.wf(),
        ensures
            r.outcome().is_none(),
            r.touched() == texts(index.files@),
            r.regions() == index.regions@,
            r.test_run() == index.test_run,
    {
        AnalysisContext { index, result: None }
    }

    /// An analysis of the test whose coverage report is `data`, not yet run.
    /// The report counts as a full index of it would: every region that ran
    /// outside the package registry's cache, with paths as the report has them.
    pub fn from_coverage(data: &CoverageData, test_run: Timestamp, test_info: TestInfo) -> (r:
        Self)
        requires
            data.wf(),
        ensures
            r.outcome().is_none(),
            r.touched() == index_files(
                touches(*data, FileFilterPolicy::IgnoreRegistryPaths),
                Seq::<PathRewritePolicy>::empty(),
            ),
            r.regions() == index_regions(touches(*data, FileFilterPolicy::IgnoreRegistryPaths)),
            r.test_run() == test_run,
    {
        let config = IndexDataCompilerConfig {
            ignore_registry_files: true,
            remove_bin_path: false,
            index_filename_converter: Vec::new(),
            accept_file: FileFilterPolicy::IgnoreRegistryPaths,
            index_size: IndexSize::Full,
        };
        let index = TestIndex::index(test_run, test_info, data, &config);
        AnalysisContext { index, result: None }
    }

    /// The files that the test touched: what has to be looked at in the
    /// repository before the analysis can run.
    pub fn touched_files(&self) -> (r: Vec<String>)
        ensures
            texts(r@) == self.touched(),
    {
        clone_list(&self.index.files)
    }

    /// When the test ran.
    pub fn test_run_at(&self) -> (r: Timestamp)
        ensures
            r == self.test_run(),
    {
        self.index.test_run
    }

    /// Whether the analysis has run.
    pub fn is_finished(&self) -> (r: bool)
        ensures
            r == self.outcome().is_some(),
    {
        self.result.is_some()
    }

    /// Runs the analysis: decides under the algorithm of `config`, with the
    /// repository as `state` has it, and keeps the verdict. An analysis runs
    /// once. Where the configuration cannot be worked with the analysis fails
    /// and stays as it was.
    pub fn run(&mut self, config: &AnalysisConfig, state: &RepoState) -> (r: Result<
        (),
        DifftestsError,
    >)
        requires
            old(self).outcome().is_none(),
        ensures
            final(self).touched() == old(self).touched(),
            final(self).regions() == old(self).regions(),
            final(self).test_run() == old(self).test_run(),
            match verdict(
                old(self).touched(),
                old(self).regions(),
                old(self).test_run(),
                config.dirty_algorithm,
                *state,
            ) {
                Ok(dirty) => r.is_ok() && final(self).outcome() == Some(result_of(dirty)),
                Err(e) => r == Err::<(), DifftestsError>(DifftestsError::InvalidConfig(e))
                    && final(self).outcome().is_none(),
            },
    {
        proof {
            use_type_invariant(&*self);
        }
        match is_dirty(&self.index, config, state) {
            Ok(dirty) => {
                self.result = Some(
                    if dirty {
                        AnalysisResult::Dirty
                    } else {
                        AnalysisResult::Clean
                    },
                );
                Ok(())
            },
            Err(e) => Err(e),
        }
    }

    /// Ends the analysis and gives its verdict.
    pub fn finish_analysis(self) -> (r: AnalysisResult)
        requires
            self.outcome().is_some(),
        ensures
            self.outcome() == Some(r),
    {
        self.result.unwrap()
    }
}

/// Whether `state` shows no change to any of the files `touched`: each exists
/// and was last modified no later than `test_run`, or none of them differs
/// from the base commit.
pub open spec fn unchanged(touched: Seq<Seq<char>>, test_run: Timestamp, state: RepoState) -> bool {
    match state {
        RepoState::FileSystem { files } => forall|i: int|
            0 <= i < touched.len() ==> !modified_since(files@, #[trigger] touched[i], test_run),
        RepoState::GitDiff { changed } => forall|i: int|
            0 <= i < touched.len() ==> !is_changed(changed@, #[trigger] touched[i]),
    }
}

/// Every region names one of the files `touched`.
pub open spec fn regions_name_files(touched: Seq<Seq<char>>, regions: Seq<IndexRegion>) -> bool {
    forall|k: int| 0 <= k < regions.len() ==> (#[trigger] regions[k]).file_id < touched.len()
}

/// Soundness. Where none of the files that a test touched has changed, the
/// test is clean under every algorithm that comes to a verdict at all.
pub proof fn law_unchanged_files_are_clean(
    touched: Seq<Seq<char>>,
    regions: Seq<IndexRegion>,
    test_run: Timestamp,
    algorithm: DirtyAlgorithm,
    state: RepoState,
)
    requires
        regions_name_files(touched, regions),
        unchanged(touched, test_run, state),
    ensures
        verdict(touched, regions, test_run, algorithm, state).is_ok() ==> verdict(
            touched,
            regions,
            test_run,
            algorithm,
            state,
        ) == Ok::<bool, InvalidConfigError>(false),
{
    match state {
        RepoState::FileSystem { files } => {},
        RepoState::GitDiff { changed } => {
            assert forall|k: int| 0 <= k < regions.len() implies !hit_by_changes(
                #[trigger] regions[k],
                touched[regions[k].file_id as int],
                changed@,
            ) by {
                assert(!is_changed(changed@, touched[regions[k].file_id as int]));
            }
        },
    }
}

/// A file that was not touched changes nothing about when a touched file was
/// last modified.
pub proof fn lemma_mtime_of_other_file(files: Seq<FileMtime>, extra: FileMtime, path: Seq<char>)
    requires
        extra.path@ != path,
    ensures
        mtime_of(files.push(extra), path) == mtime_of(files, path),
    decreases files.len(),
{
    if files.len() == 0 {
        assert(files.push(extra).drop_first() =~= files);
    } else {
        assert(files.push(extra)[0] == files[0]);
        assert(files.push(extra).drop_first() =~= files.drop_first().push(extra));
        lemma_mtime_of_other_file(files.drop_first(), extra, path);
    }
}

/// The centre of the analysis: what is observed of a file that the test did
/// not touch has no part in the verdict, however much that file changed.
pub proof fn law_untouched_files_do_not_matter(
    touched: Seq<Seq<char>>,
    regions: Seq<IndexRegion>,
    test_run: Timestamp,
    files: Seq<FileMtime>,
    other_file: FileMtime,
    changed: Seq<ChangedFile>,
    other_change: ChangedFile,
)
    requires
        regions_name_files(touched, regions),
        !touched.contains(other_file.path@),
        !touched.contains(other_change.path@),
    ensures
        dirty_by_mtimes(touched, test_run, files.push(other_file)) == dirty_by_mtimes(
            touched,
            test_run,
            files,
        ),
        dirty_by_files(touched, changed.push(other_change)) == dirty_by_files(touched, changed),
        dirty_by_hunks(touched, regions, changed.push(other_change)) == dirty_by_hunks(
            touched,
            regions,
            changed,
        ),
{
    let files2 = files.push(other_file);
    let changed2 = changed.push(other_change);
    assert forall|i: int| 0 <= i < touched.len() implies modified_since(
        files2,
        #[trigger] touched[i],
        test_run,
    ) == modified_since(files, touched[i], test_run) by {
        assert(touched.contains(touched[i]));
        lemma_mtime_of_other_file(files, other_file, touched[i]);
    }
    assert forall|i: int| 0 <= i < touched.len() implies is_changed(
        changed2,
        #[trigger] touched[i],
    ) == is_changed(changed, touched[i]) by {
        assert(touched.contains(touched[i]));
        if is_changed(changed, touched[i]) {
            let j = choose|j: int|
                0 <= j < changed.len() && (#[trigger] changed[j]).path@ == touched[i];
            assert(changed2[j] == changed[j]);
        }
        if is_changed(changed2, touched[i]) {
            let j = choose|j: int|
                0 <= j < changed2.len() && (#[trigger] changed2[j]).path@ == touched[i];
            assert(j < changed.len());
            assert(changed2[j] == changed[j]);
        }
    }
    assert forall|k: int| 0 <= k < regions.len() implies hit_by_changes(
        #[trigger] regions[k],
        touched[regions[k].file_id as int],
        changed2,
    ) == hit_by_changes(regions[k], touched[regions[k].file_id as int], changed) by {
        let file = touched[regions[k].file_id as int];
        assert(touched.contains(file));
        if hit_by_changes(regions[k], file, changed) {
            let j = choose|j: int|
                0 <= j < changed.len() && (#[trigger] changed[j]).path@ == file && hit_by_hunks(
                    regions[k],
                    changed[j].hunks@,
                );
            assert(changed2[j] == changed[j]);
        }
        if hit_by_changes(regions[k], file, changed2) {
            let j = choose|j: int|
                0 <= j < changed2.len() && (#[trigger] changed2[j]).path@ == file && hit_by_hunks(
                    regions[k],
                    changed2[j].hunks@,
                );
            assert(j < changed.len());
            assert(changed2[j] == changed[j]);
        }
    }
    if dirty_by_mtimes(touched, test_run, files) {
        let i = choose|i: int|
            0 <= i < touched.len() && modified_since(files, #[trigger] touched[i], test_run);
        assert(modified_since(files2, touched[i], test_run));
    }
    if dirty_by_files(touched, changed) {
        let i = choose|i: int| 0 <= i < touched.len() && is_changed(changed, #[trigger] touched[i]);
        assert(is_changed(changed2, touched[i]));
    }
    if dirty_by_hunks(touched, regions, changed) {
        let k = choose|k: int|
            0 <= k < regions.len() && hit_by_changes(
                #[trigger] regions[k],
                touched[regions[k].file_id as int],
                changed,
            );
        assert(hit_by_changes(regions[k], touched[regions[k].file_id as int], changed2));
    }
}

/// The verdict by files does not depend on the order in which the touched
/// files are listed, nor on how often one is listed: two lists with the same
/// members give the same verdict, by times of modification and by the files
/// of a diff.
pub proof fn law_order_of_files_does_not_matter(
    touched: Seq<Seq<char>>,
    reordered: Seq<Seq<char>>,
    test_run: Timestamp,
    files: Seq<FileMtime>,
    changed: Seq<ChangedFile>,
)
    requires
        forall|p: Seq<char>| touched.contains(p) <==> reordered.contains(p),
    ensures
        dirty_by_mtimes(touched, test_run, files) == dirty_by_mtimes(reordered, test_run, files),
        dirty_by_files(touched, changed) == dirty_by_files(reordered, changed),
{
    lemma_dirty_goes_by_members(touched, reordered, test_run, files, changed);
    lemma_dirty_goes_by_members(reordered, touched, test_run, files, changed);
}

/// What is dirty by one list of files is dirty by any list that holds the
/// same files.
proof fn lemma_dirty_goes_by_members(
    a: Seq<Seq<char>>,
    b: Seq<Seq<char>>,
    test_run: Timestamp,
    files: Seq<FileMtime>,
    changed: Seq<ChangedFile>,
)
    requires
        forall|p: Seq<char>| a.contains(p) ==> b.contains(p),
    ensures
        dirty_by_mtimes(a, test_run, files) ==> dirty_by_mtimes(b, test_run, files),
        dirty_by_files(a, changed) ==> dirty_by_files(b, changed),
{
    if dirty_by_mtimes(a, test_run, files) {
        let i = choose|i: int| 0 <= i < a.len() && modified_since(files, #[trigger] a[i], test_run);
        assert(a.contains(a[i]));
        let j = choose|j: int| 0 <= j < b.len() && b[j] == a[i];
        assert(modified_since(files, b[j], test_run));
    }
    if dirty_by_files(a, changed) {
        let i = choose|i: int| 0 <= i < a.len() && is_changed(changed, #[trigger] a[i]);
        assert(a.contains(a[i]));
        let j = choose|j: int| 0 <= j < b.len() && b[j] == a[i];
        assert(is_changed(changed, b[j]));
    }
}

/// An empty index is clean under every algorithm that reads the given state.
pub proof fn law_empty_index_is_clean(test_run: Timestamp, algorithm: DirtyAlgorithm, state: RepoState)
    ensures
        verdict(
            Seq::<Seq<char>>::empty(),
            Seq::<IndexRegion>::empty(),
            test_run,
            algorithm,
            state,
        ).is_ok() ==> verdict(
            Seq::<Seq<char>>::empty(),
            Seq::<IndexRegion>::empty(),
            test_run,
            algorithm,
            state,
        ) == Ok::<bool, InvalidConfigError>(false),
{
}

/// Whether `line` is one of the lines of the region.
pub open spec fn region_holds_line(region: IndexRegion, line: int) -> bool {
    region.l1 <= line <= region.l2
}

/// Whether `line` is one of the lines of the run.
pub open spec fn range_holds_line(range: LineRange, line: int) -> bool {
    range.first <= line <= range.last
}

/// A region and a run of lines overlap exactly where some line lies in both:
/// one shared line is enough, and lines that only lie next to each other are
/// not.
pub proof fn law_overlap_is_a_shared_line(region: IndexRegion, hunk: LineRange)
    ensures
        overlaps(region, hunk) <==> exists|line: int|
            region_holds_line(region, line) && range_holds_line(hunk, line),
{
    if overlaps(region, hunk) {
        let line: int = if region.l1 >= hunk.first {
            region.l1 as int
        } else {
            hunk.first as int
        };
        assert(region_holds_line(region, line) && range_holds_line(hunk, line));
    }
}

/// Region coverage. Matching by hunks finds a test dirty exactly where one of
/// its regions shares a line with a hunk of the file the region lies in.
pub proof fn law_dirty_by_hunks_is_some_overlap(
    touched: Seq<Seq<char>>,
    regions: Seq<IndexRegion>,
    changed: Seq<ChangedFile>,
)
    ensures
        dirty_by_hunks(touched, regions, changed) <==> exists|k: int, j: int, h: int|
            0 <= k < regions.len() && 0 <= j < changed.len() && 0 <= h < changed[j].hunks@.len()
                && changed[j].path@ == touched[regions[k].file_id as int] && overlaps(
                #[trigger] regions[k],
                #[trigger] changed[j].hunks@[h],
            ),
{
    if dirty_by_hunks(touched, regions, changed) {
        let k = choose|k: int|
            0 <= k < regions.len() && hit_by_changes(
                #[trigger] regions[k],
                touched[regions[k].file_id as int],
                changed,
            );
        let file = touched[regions[k].file_id as int];
        let j = choose|j: int|
            0 <= j < changed.len() && (#[trigger] changed[j]).path@ == file && hit_by_hunks(
                regions[k],
                changed[j].hunks@,
            );
        let h = choose|h: int|
            0 <= h < changed[j].hunks@.len() && overlaps(regions[k], #[trigger] changed[j].hunks@[h]);
        assert(overlaps(regions[k], changed[j].hunks@[h]));
    }
    if exists|k: int, j: int, h: int|
        0 <= k < regions.len() && 0 <= j < changed.len() && 0 <= h < changed[j].hunks@.len()
            && changed[j].path@ == touched[regions[k].file_id as int] && overlaps(
            #[trigger] regions[k],
            #[trigger] changed[j].hunks@[h],
        ) {
        let (k, j, h) = choose|k: int, j: int, h: int|
            0 <= k < regions.len() && 0 <= j < changed.len() && 0 <= h < changed[j].hunks@.len()
                && changed[j].path@ == touched[regions[k].file_id as int] && overlaps(
                #[trigger] regions[k],
                #[trigger] changed[j].hunks@[h],
            );
        assert(hit_by_hunks(regions[k], changed[j].hunks@));
        assert(hit_by_changes(regions[k], touched[regions[k].file_id as int], changed));
    }
}

/// Region coverage. A region that lies wholly before or wholly after every
/// hunk of a file is not hit by the changes to that file.
pub proof fn law_region_clear_of_hunks_is_not_hit(region: IndexRegion, hunks: Seq<LineRange>)
    requires
        forall|h: int|
            0 <= h < hunks.len() ==> region.l2 < (#[trigger] hunks[h]).first || hunks[h].last
                < region.l1,
    ensures
        !hit_by_hunks(region, hunks),
{
}

/// Region coverage. Where every region of a test lies clear of every hunk of
/// the file it lies in, matching by hunks finds the test clean, whatever
/// files changed.
pub proof fn law_regions_clear_of_hunks_are_clean(
    touched: Seq<Seq<char>>,
    regions: Seq<IndexRegion>,
    changed: Seq<ChangedFile>,
)
    requires
        forall|k: int, j: int, h: int|
            0 <= k < regions.len() && 0 <= j < changed.len() && 0 <= h < changed[j].hunks@.len()
                && changed[j].path@ == touched[regions[k].file_id as int] ==> (
            #[trigger] regions[k]).l2 < (#[trigger] changed[j].hunks@[h]).first
                || changed[j].hunks@[h].last < regions[k].l1,
    ensures
        !dirty_by_hunks(touched, regions, changed),
{
    law_dirty_by_hunks_is_some_overlap(touched, regions, changed);
}

/// Granularity. Matching by hunks against an index that holds files but no
/// regions is a configuration error, never a verdict.
pub proof fn law_hunks_need_regions(
    touched: Seq<Seq<char>>,
    test_run: Timestamp,
    commit: Option<String>,
    changed: Vec<ChangedFile>,
)
    requires
        touched.len() > 0,
    ensures
        verdict(
            touched,
            Seq::<IndexRegion>::empty(),
            test_run,
            DirtyAlgorithm::GitDiff { strategy: GitDiffStrategy::Hunks, commit },
            RepoState::GitDiff { changed },
        ) == Err::<bool, InvalidConfigError>(InvalidConfigError::IndexHasNoRegions),
{
}

} // verus!
