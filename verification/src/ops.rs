//! The steps of the commands: what is done to come to a verdict on a test,
//! which tests are collected, and how a test is run for its coverage.

use vstd::prelude::*;
use crate::cli_core::{
    remap_of, resolver_for_index_root, AnalysisIndexStrategy, IndexesTouchSameFilesReportAction,
    ReportOutcome,
};
use crate::index_compare::{
    compare_indexes_touch_same_files, difference_views, differences_between,
    TouchSameFilesDifference,
};
use crate::index_data::TestIndex;
use crate::paths::{join, path_joined, text_of, DiscoverIndexPathResolver};
use crate::text::{
    contains, first_occurrence, has_occurrence, lines, lines_of, same_text, split_once, texts,
};

verus! {

/// What an analysis works from.
#[derive(Debug)]
pub enum AnalysisSource {
    /// The coverage report, exported from the merged profile.
    Coverage,
    /// The index that is there.
    ExistingIndex,
    /// An index compiled now. It is written to `write_to`, where there is
    /// such a place, and where `clean` is set the profiling data is cleaned up
    /// once the index is written.
    CompiledIndex { write_to: Option<String>, clean: bool },
}

/// What an analysis works from, as a plain value.
pub enum AnalysisSourceView {
    /// The coverage report.
    Coverage,
    /// The index that is there.
    ExistingIndex,
    /// An index compiled now.
    CompiledIndex { write_to: Option<Seq<char>>, clean: bool },
}

impl View for AnalysisSource {
    type V = AnalysisSourceView;

    open spec fn view(&self) -> AnalysisSourceView {
        match *self {
            AnalysisSource::Coverage => AnalysisSourceView::Coverage,
            AnalysisSource::ExistingIndex => AnalysisSourceView::ExistingIndex,
            AnalysisSource::CompiledIndex { write_to, clean } => AnalysisSourceView::CompiledIndex {
                write_to: text_of(write_to),
                clean,
            },
        }
    }
}

/// The steps that lead to the verdict on one test.
#[derive(Debug)]
pub struct AnalysisPlan {
    /// Whether the profiles are merged first.
    pub merge_profraws: bool,
    /// What the analysis works from.
    pub source: AnalysisSource,
}

/// The steps that lead to the verdict on a test under `strategy`, where
/// `has_index` says whether the test has an index and `index_path` is the
/// place that the resolver names for it, if any. The steps are whether the
/// profiles are merged and what the analysis works from.
///
/// An index that is there is used by every strategy but `Never`. Without one,
/// the profiles are merged, and then `Always` and `AlwaysAndClean` compile an
/// index, which is written where it has a place, while the others work from
/// the coverage report. `AlwaysAndClean` cleans up after an index that was
/// written.
pub open spec fn planned(
    strategy: AnalysisIndexStrategy,
    has_index: bool,
    index_path: Option<Seq<char>>,
) -> (bool, AnalysisSourceView) {
    match strategy {
        AnalysisIndexStrategy::Never => (true, AnalysisSourceView::Coverage),
        _ => if has_index {
            (false, AnalysisSourceView::ExistingIndex)
        } else {
            (
                true,
                match strategy {
                    AnalysisIndexStrategy::Always => AnalysisSourceView::CompiledIndex {
                        write_to: index_path,
                        clean: false,
                    },
                    AnalysisIndexStrategy::AlwaysAndClean => AnalysisSourceView::CompiledIndex {
                        write_to: index_path,
                        clean: index_path.is_some(),
                    },
                    _ => AnalysisSourceView::Coverage,
                },
            )
        },
    }
}

/// The place that an optional resolver names for the index of `dir`.
pub open spec fn resolved_by(resolver: Option<&DiscoverIndexPathResolver>, dir: Seq<char>) -> Option<
    Seq<char>,
> {
    match resolver {
        Some(r) => r.resolved(dir),
        None => None,
    }
}

/// The steps that lead to the verdict on the test in `dir`.
pub fn analyze_single_test(
    strategy: AnalysisIndexStrategy,
    has_index: bool,
    resolver: Option<&DiscoverIndexPathResolver>,
    dir: &str,
) -> (r: AnalysisPlan)
    ensures
        (r.merge_profraws, r.source@) == planned(strategy, has_index, resolved_by(resolver, dir@)),
{
    let compile = !has_index && match strategy {
        AnalysisIndexStrategy::Always | AnalysisIndexStrategy::AlwaysAndClean => true,
        _ => false,
    };
    if compile {
        let write_to = match resolver {
            Some(r) => r.resolve(dir),
            None => None,
        };
        let clean = write_to.is_some() && match strategy {
            AnalysisIndexStrategy::AlwaysAndClean => true,
            _ => false,
        };
        return AnalysisPlan {
            merge_profraws: true,
            source: AnalysisSource::CompiledIndex { write_to, clean },
        };
    }
    match strategy {
        AnalysisIndexStrategy::Never => AnalysisPlan {
            merge_profraws: true,
            source: AnalysisSource::Coverage,
        },
        _ => {
            if has_index {
                AnalysisPlan { merge_profraws: false, source: AnalysisSource::ExistingIndex }
            } else {
                AnalysisPlan { merge_profraws: true, source: AnalysisSource::Coverage }
            }
        },
    }
}

/// The steps that lead to the verdict on the group in `dir`: those of a
/// single test.
pub fn analyze_single_group(
    strategy: AnalysisIndexStrategy,
    has_index: bool,
    resolver: Option<&DiscoverIndexPathResolver>,
    dir: &str,
) -> (r: AnalysisPlan)
    ensures
        (r.merge_profraws, r.source@) == planned(strategy, has_index, resolved_by(resolver, dir@)),
{
    analyze_single_test(strategy, has_index, resolver, dir)
}

/// A binary that holds tests: its path and its name.
#[derive(Clone, Debug)]
pub struct TestHarness(pub String, pub String);

/// A test of a harness: the harness and the name of the test.
#[derive(Debug)]
pub struct ListedTest(pub TestHarness, pub String);

/// A line of a test list that cannot be read: it has no `": "` in it.
#[derive(Debug, Copy, Clone, PartialEq, Eq, Structural)]
pub struct InvalidTestListLine;

/// What a line of a test list names, where it can be read: the test before the
/// first `": "`, if what follows is `test`, and nothing otherwise.
pub open spec fn listed_name(line: Seq<char>) -> Option<Option<Seq<char>>> {
    if has_occurrence(line, ": "@) {
        let at = choose|at: int| first_occurrence(line, ": "@, at);
        if line.subrange(at + 2, line.len() as int) == "test"@ {
            Some(Some(line.subrange(0, at)))
        } else {
            Some(None)
        }
    } else {
        None
    }
}

/// Reads a line of a test list. A line reads `name: kind`; only the kind
/// `test` names a test.
pub fn parse_test_list_line(line: &str) -> (r: Result<Option<String>, InvalidTestListLine>)
    ensures
        match r {
            Ok(Some(name)) => listed_name(line@) == Some(Some(name@)),
            Ok(None) => listed_name(line@) == Some(None::<Seq<char>>),
            Err(_) => listed_name(line@).is_none(),
        },
{
    proof {
        reveal_strlit(": ");
    }
    match split_once(line, ": ") {
        None => Err(InvalidTestListLine),
        Some((trial, kind)) => {
            proof {
                let at = choose|at: int| first_occurrence(line@, ": "@, at);
                lemma_first_occurrence_is_one(line@, ": "@, at, trial@.len() as int);
            }
            if same_text(kind.as_str(), "test") {
                Ok(Some(trial))
            } else {
                Ok(None)
            }
        },
    }
}

/// A text has one first occurrence of a pattern at most.
pub proof fn lemma_first_occurrence_is_one(s: Seq<char>, pat: Seq<char>, a: int, b: int)
    requires
        first_occurrence(s, pat, a),
        first_occurrence(s, pat, b),
    ensures
        a == b,
{
}

impl TestHarness {
    /// The tests that a test list names, in order, or an error where one of
    /// its lines cannot be read. `stdout` is the list as the harness prints
    /// it, a line for each entry.
    pub fn list_tests(&self, stdout: &str) -> (r: Result<Vec<ListedTest>, InvalidTestListLine>)
        ensures
            r.is_ok() == (forall|i: int|
                0 <= i < lines_of(stdout@).len() ==> listed_name(#[trigger] lines_of(stdout@)[i]).is_some()),
            match r {
                Ok(tests) => listed_names(tests@) == names_in(lines_of(stdout@)) && forall|k: int|
                    0 <= k < tests@.len() ==> (#[trigger] tests@[k]).0.0@ == self.0@ && tests@[k].0.1@
                        == self.1@,
                Err(_) => true,
            },
    {
        let list = lines(stdout);
        let ghost all = lines_of(stdout@);
        let mut tests: Vec<ListedTest> = Vec::new();
        let mut i: usize = 0;
        assert(texts(list@).len() == list@.len());
        assert(listed_names(tests@) =~= names_in(all.take(0)));
        while i < list.len()
            invariant
                i <= list.len(),
                all == lines_of(stdout@),
                all == texts(list@),
                all.len() == list@.len(),
                forall|k: int| 0 <= k < i ==> listed_name(#[trigger] all[k]).is_some(),
                listed_names(tests@) == names_in(all.take(i as int)),
                forall|k: int|
                    0 <= k < tests@.len() ==> (#[trigger] tests@[k]).0.0@ == self.0@ && tests@[k].0.1@
                        == self.1@,
            decreases list.len() - i,
        {
            assert(all.take(i + 1).drop_last() =~= all.take(i as int));
            assert(all.take(i + 1).last() == list@[i as int]@);
            assert(all[i as int] == list@[i as int]@);
            match parse_test_list_line(list[i].as_str()) {
                Err(e) => {
                    assert(listed_name(lines_of(stdout@)[i as int]).is_none());
                    return Err(e);
                },
                Ok(Some(name)) => {
                    let ghost before = tests@;
                    tests.push(ListedTest(TestHarness(self.0.clone(), self.1.clone()), name));
                    assert(listed_names(tests@) =~= listed_names(before).push(name@));
                },
                Ok(None) => {},
            }
            i += 1;
        }
        assert(all.take(all.len() as int) =~= all);
        Ok(tests)
    }
}

/// The names of the tests, in order.
pub open spec fn listed_names(tests: Seq<ListedTest>) -> Seq<Seq<char>> {
    tests.map_values(|t: ListedTest| t.1@)
}

/// The tests that the lines name, in order; lines that cannot be read name
/// none.
pub open spec fn names_in(lines: Seq<Seq<char>>) -> Seq<Seq<char>>
    decreases lines.len(),
{
    if lines.len() == 0 {
        Seq::empty()
    } else {
        let before = names_in(lines.drop_last());
        match listed_name(lines.last()) {
            Some(Some(name)) => before.push(name),
            _ => before,
        }
    }
}

/// How a test is run.
#[derive(Debug)]
pub struct TestCommand {
    /// The program to run.
    pub program: String,
    /// Its arguments.
    pub args: Vec<String>,
    /// What is set in its environment: names and values.
    pub env: Vec<(String, String)>,
}

/// The names in an environment, in order.
pub open spec fn env_names(env: Seq<(String, String)>) -> Seq<Seq<char>> {
    env.map_values(|e: (String, String)| e.0@)
}

/// The values in an environment, in order.
pub open spec fn env_values(env: Seq<(String, String)>) -> Seq<Seq<char>> {
    env.map_values(|e: (String, String)| e.1@)
}

impl ListedTest {
    /// The name of the harness that holds the test.
    pub fn get_harness_name(&self) -> (r: &String)
        ensures
            r == self.0.1,
    {
        &self.0.1
    }

    /// The path of the harness that holds the test.
    pub fn get_harness_path(&self) -> (r: &String)
        ensures
            r == self.0.0,
    {
        &self.0.0
    }

    /// The name of the test.
    pub fn get_name(&self) -> (r: &String)
        ensures
            r == self.1,
    {
        &self.1
    }

    /// How the test is run alone, with the given environment.
    pub fn run_test(&self, env: Vec<(String, String)>) -> (r: TestCommand)
        ensures
            r.program@ == self.0.0@,
            texts(r.args@) == seq!["--exact"@, self.1@, "--nocapture"@],
            r.env == env,
    {
        let mut args: Vec<String> = Vec::new();
        args.push("--exact".to_owned());
        args.push(self.1.clone());
        args.push("--nocapture".to_owned());
        assert(texts(args@) =~= seq!["--exact"@, self.1@, "--nocapture"@]);
        TestCommand { program: self.0.0.clone(), args, env }
    }

    /// How the test is run alone so that its coverage goes to `difftest_dir`.
    pub fn run_test_and_collect_profiling_data(&self, difftest_dir: &str) -> (r: TestCommand)
        ensures
            r.program@ == self.0.0@,
            texts(r.args@) == seq!["--exact"@, self.1@, "--nocapture"@],
            env_names(r.env@) == seq![
                "CARGO_DIFFTEST_DIR"@,
                "LLVM_PROFILE_FILE"@,
                "RUSTC_WORKSPACE_WRAPPER"@,
            ],
            env_values(r.env@) == seq![
                difftest_dir@,
                path_joined(difftest_dir@, "%p_%m.profraw"@),
                "rustc-wrapper-difftests"@,
            ],
    {
        let mut env: Vec<(String, String)> = Vec::new();
        env.push(("CARGO_DIFFTEST_DIR".to_owned(), difftest_dir.to_owned()));
        env.push(("LLVM_PROFILE_FILE".to_owned(), join(difftest_dir, "%p_%m.profraw")));
        env.push(("RUSTC_WORKSPACE_WRAPPER".to_owned(), "rustc-wrapper-difftests".to_owned()));
        assert(env_names(env@) =~= seq![
            "CARGO_DIFFTEST_DIR"@,
            "LLVM_PROFILE_FILE"@,
            "RUSTC_WORKSPACE_WRAPPER"@,
        ]);
        assert(env_values(env@) =~= seq![
            difftest_dir@,
            path_joined(difftest_dir@, "%p_%m.profraw"@),
            "rustc-wrapper-difftests"@,
        ]);
        self.run_test(env)
    }

    /// The directory that the coverage of the test goes to: below `root`, the
    /// name of the harness, and below that the name of the test.
    pub fn difftest_dir(&self, root: &str) -> (r: String)
        ensures
            r@ == path_joined(path_joined(root@, self.0.1@), self.1@),
    {
        let harness_dir = join(root, self.0.1.as_str());
        join(harness_dir.as_str(), self.1.as_str())
    }
}

/// Whether a test of the name `name` passes the filter: every test passes
/// where there is none, an exact filter passes the test of that very name, any
/// other filter the tests that have it in their name.
pub open spec fn passes_filter(name: Seq<char>, filter: Option<Seq<char>>, exact: bool) -> bool {
    match filter {
        None => true,
        Some(f) => if exact {
            name == f
        } else {
            has_occurrence(name, f)
        },
    }
}

/// Which tests coverage is collected for.
#[derive(Debug, Clone)]
pub struct CollectProfilingDataCommand {
    /// What the name of a test has to hold for the test to be taken.
    pub filter: Option<String>,
    /// Whether the filter has to be the whole name.
    pub exact: bool,
}

impl CollectProfilingDataCommand {
    /// Whether the test of the name `name` is taken.
    pub fn takes(&self, name: &str) -> (r: bool)
        ensures
            r == passes_filter(name@, text_of(self.filter), self.exact),
    {
        match &self.filter {
            None => true,
            Some(f) => if self.exact {
                same_text(name, f.as_str())
            } else {
                contains(name, f.as_str())
            },
        }
    }

    /// The tests among `tests` that are taken, in order.
    pub fn retain(&self, tests: &Vec<ListedTest>) -> (r: Vec<ListedTest>)
        ensures
            r@ == retained(tests@, text_of(self.filter), self.exact),
    {
        let ghost filter = text_of(self.filter);
        let mut out: Vec<ListedTest> = Vec::new();
        let mut i: usize = 0;
        assert(out@ =~= retained(tests@.take(0), filter, self.exact));
        while i < tests.len()
            invariant
                i <= tests.len(),
                filter == text_of(self.filter),
                out@ == retained(tests@.take(i as int), filter, self.exact),
            decreases tests.len() - i,
        {
            assert(tests@.take(i + 1).drop_last() =~= tests@.take(i as int));
            let t = &tests[i];
            if self.takes(t.1.as_str()) {
                out.push(ListedTest(TestHarness(t.0.0.clone(), t.0.1.clone()), t.1.clone()));
            }
            i += 1;
        }
        assert(tests@.take(tests@.len() as int) =~= tests@);
        out
    }
}

/// The tests among `tests` that pass the filter, in order.
pub open spec fn retained(tests: Seq<ListedTest>, filter: Option<Seq<char>>, exact: bool) -> Seq<
    ListedTest,
>
    decreases tests.len(),
{
    if tests.len() == 0 {
        Seq::empty()
    } else {
        let before = retained(tests.drop_last(), filter, exact);
        if passes_filter(tests.last().1@, filter, exact) {
            before.push(tests.last())
        } else {
            before
        }
    }
}

/// Whether a compiled target is a test harness: `test` is among its kinds.
pub fn is_test_target(kinds: &Vec<String>) -> (r: bool)
    ensures
        r == texts(kinds@).contains("test"@),
{
    crate::text::list_contains(kinds, "test")
}

/// The arguments with which the runner has one test run again for its
/// coverage.
pub fn rerun_test_args(test_name: &str) -> (r: Vec<String>)
    ensures
        texts(r@) == seq!["collect-profiling-data"@, "--filter"@, test_name@, "--exact"@],
{
    let mut args: Vec<String> = Vec::new();
    args.push("collect-profiling-data".to_owned());
    args.push("--filter".to_owned());
    args.push(test_name.to_owned());
    args.push("--exact".to_owned());
    assert(texts(args@) =~= seq![
        "collect-profiling-data"@,
        "--filter"@,
        test_name@,
        "--exact"@,
    ]);
    args
}

/// What there is to discover in a directory.
#[derive(Debug)]
pub enum DiscoverPlan {
    /// Nothing: the directory is not there, or is no directory.
    NothingThere,
    /// The tests below the directory, with their indexes where the resolver
    /// puts them.
    Discover { resolver: Option<DiscoverIndexPathResolver>, ignore_incompatible: bool },
}

/// Says what there is to discover in `dir`, which exists or not and is a
/// directory or not: nothing where it is no directory; otherwise the tests
/// below it, with their indexes below `index_root` where one is given.
pub fn discover_difftests(
    dir: &str,
    dir_exists: bool,
    is_dir: bool,
    index_root: Option<String>,
    ignore_incompatible: bool,
) -> (r: DiscoverPlan)
    ensures
        !dir_exists || !is_dir ==> r is NothingThere,
        dir_exists && is_dir ==> (r matches DiscoverPlan::Discover {
            resolver,
            ignore_incompatible: ignore,
        } && ignore == ignore_incompatible && resolver.is_some() == index_root.is_some() && (
        index_root.is_some() ==> remap_of(resolver) == Some((dir@, index_root.unwrap()@)))),
{
    if !dir_exists || !is_dir {
        return DiscoverPlan::NothingThere;
    }
    let resolver = resolver_for_index_root(dir, index_root);
    DiscoverPlan::Discover { resolver, ignore_incompatible }
}

/// The command that discovers the tests below a directory.
#[derive(Debug, Clone)]
pub struct DiscoverDifftestsCommand {
    /// The directory below which the test directories lie.
    pub dir: String,
    /// The directory below which the indexes are kept, if any.
    pub index_root: Option<String>,
    /// Whether test directories written by another version are passed over.
    pub ignore_incompatible: bool,
}

impl DiscoverDifftestsCommand {
    /// Says what there is to discover, where `dir_exists` and `is_dir` tell
    /// what the command's directory is.
    pub fn run(self, dir_exists: bool, is_dir: bool) -> (r: DiscoverPlan)
        ensures
            !dir_exists || !is_dir ==> r is NothingThere,
            dir_exists && is_dir ==> (r matches DiscoverPlan::Discover {
                resolver,
                ignore_incompatible: ignore,
            } && ignore == self.ignore_incompatible && resolver.is_some()
                == self.index_root.is_some() && (self.index_root.is_some() ==> remap_of(resolver)
                == Some((self.dir@, self.index_root.unwrap()@)))),
    {
        discover_difftests(
            self.dir.as_str(),
            dir_exists,
            is_dir,
            self.index_root,
            self.ignore_incompatible,
        )
    }
}

/// Holds two indexes against each other and says what comes of it under
/// `action`, with the differences that there are to tell.
pub fn run_indexes_touch_same_files_report(
    index1: &TestIndex,
    index2: &TestIndex,
    action: IndexesTouchSameFilesReportAction,
) -> (r: (ReportOutcome, Vec<TouchSameFilesDifference>))
    ensures
        difference_views(r.1@) == differences_between(texts(index1.files@), texts(index2.files@)),
        r.0 == match action {
            IndexesTouchSameFilesReportAction::Print => ReportOutcome::PrintDifferences,
            IndexesTouchSameFilesReportAction::Assert => if r.1@.len() == 0 {
                ReportOutcome::Nothing
            } else {
                ReportOutcome::Fail
            },
        },
{
    match compare_indexes_touch_same_files(index1, index2) {
        Ok(_) => {
            let none: Vec<TouchSameFilesDifference> = Vec::new();
            assert(difference_views(none@) =~= differences_between(
                texts(index1.files@),
                texts(index2.files@),
            ));
            (action.do_for_report(true), none)
        },
        Err(d) => {
            let differences = d.into_differences();
            assert(difference_views(differences@).len() == differences@.len());
            (action.do_for_report(false), differences)
        },
    }
}

} // verus!
