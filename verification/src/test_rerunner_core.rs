//! Running dirty tests again: what is handed to the process that runs them,
//! how far it has come, and the lines by which it says so.

use vstd::prelude::*;
use crate::analysis::{AnalysisVerdict, AnalyzeAllSingleGroup, AnalyzeAllSingleTest, GroupInfo};
use crate::difftest::TestInfo;
use crate::text::{joined, has_prefix, same_text, starts_with, trim_start_matches, without_leading};

verus! {

/// The environment variable that tells the rerunner which version called it.
pub const CARGO_DIFFTESTS_VER_NAME: &'static str = "CARGO_DIFFTESTS_VER";

/// What a line that reports the counts begins with.
pub const TEST_COUNTS_PREFIX: &'static str = "cargo-difftests-test-counts::";

/// What a line that reports the start of a test begins with.
pub const START_TEST_PREFIX: &'static str = "cargo-difftests-start-test::";

/// What a line that reports the success of a test begins with.
pub const TEST_SUCCESSFUL_PREFIX: &'static str = "cargo-difftests-test-successful::";

/// What a line that reports the failure of a test begins with.
pub const TEST_FAILED_PREFIX: &'static str = "cargo-difftests-test-failed::";

/// How far a rerun has come.
#[derive(Clone, Copy, Debug, PartialEq, Eq, Structural)]
pub enum State {
    /// Nothing is known yet.
    Uninitialized,
    /// Tests are running: so many are done of so many.
    Running { current_test_count: usize, total_test_count: usize },
    /// Every test is done.
    Done,
    /// The rerun failed.
    Error,
}

/// The counts of a rerun. They start out unknown, are initialized once, go up
/// test by test, and end as done or as failed.
pub struct TestRunnerInvocationTestCounts {
    state: State,
}

/// A test that has started and not yet ended.
pub struct TestRunnerInvocationTestCountsTestGuard {
    test_name: String,
}

impl TestRunnerInvocationTestCounts {
    /// How far the rerun has come.
    pub closed spec fn state(self) -> State {
        self.state
    }

    /// How far the rerun has come.
    pub fn current_state(&self) -> (r: State)
        ensures
            r == self.state(),
    {
        self.state
    }

    /// Sets out with `total_tests_to_run` tests and none done. Gives the state
    /// to report.
    pub fn initialize_test_counts(&mut self, total_tests_to_run: usize) -> (r: State)
        requires
            old(self).state() == State::Uninitialized,
        ensures
            final(self).state() == (State::Running {
                current_test_count: 0,
                total_test_count: total_tests_to_run,
            }),
            r == final(self).state(),
    {
        self.state = State::Running { current_test_count: 0, total_test_count: total_tests_to_run };
        self.state
    }

    /// Starts the test `test_name`. Gives the started test and the line to
    /// report.
    pub fn start_test(&self, test_name: String) -> (r: (
        TestRunnerInvocationTestCountsTestGuard,
        String,
    ))
        requires
            self.state() is Running,
        ensures
            r.0.test_name() == test_name@,
            r.1@ == START_TEST_PREFIX@ + test_name@,
    {
        let line = joined(START_TEST_PREFIX, test_name.as_str());
        (TestRunnerInvocationTestCountsTestGuard { test_name }, line)
    }

    /// Counts one more test as done. Gives the state to report.
    pub fn inc(&mut self) -> (r: State)
        requires
            old(self).state() matches State::Running { current_test_count, total_test_count }
                && current_test_count < total_test_count,
        ensures
            old(self).state() matches State::Running { current_test_count, total_test_count }
                && final(self).state() == (State::Running {
                current_test_count: (current_test_count + 1) as usize,
                total_test_count,
            }),
            r == final(self).state(),
    {
        match self.state {
            State::Running { current_test_count, total_test_count } => {
                self.state =
                State::Running { current_test_count: current_test_count + 1, total_test_count };
            },
            _ => {},
        }
        self.state
    }

    /// Ends the counting. A running count becomes done, and the new state is
    /// given to report; a count that is done stays so, with nothing to report.
    pub fn test_count_done(&mut self) -> (r: Option<State>)
        requires
            old(self).state() is Running || old(self).state() is Done,
        ensures
            final(self).state() == State::Done,
            r == if old(self).state() is Running {
                Some(State::Done)
            } else {
                None
            },
    {
        match self.state {
            State::Running { .. } => {
                self.state = State::Done;
                Some(State::Done)
            },
            _ => None,
        }
    }

    /// Marks a count that is still running as failed, and gives the new state
    /// to report; any other count stays as it is, with nothing to report.
    /// After this the count is not running, whatever it was.
    pub fn fail_if_running(&mut self) -> (r: Option<State>)
        ensures
            final(self).state() == if old(self).state() is Running {
                State::Error
            } else {
                old(self).state()
            },
            r == if old(self).state() is Running {
                Some(State::Error)
            } else {
                None
            },
            !(final(self).state() is Running),
    {
        match self.state {
            State::Running { .. } => {
                self.state = State::Error;
                Some(State::Error)
            },
            _ => None,
        }
    }
}

impl TestRunnerInvocationTestCountsTestGuard {
    /// The name of the test.
    pub closed spec fn test_name(self) -> Seq<char> {
        self.test_name@
    }

    /// Ends the test as passed: the count goes up by one. Gives the state and
    /// the line to report, in that order.
    pub fn test_successful(self, counts: &mut TestRunnerInvocationTestCounts) -> (r: (State, String))
        requires
            old(counts).state() matches State::Running { current_test_count, total_test_count }
                && current_test_count < total_test_count,
        ensures
            old(counts).state() matches State::Running { current_test_count, total_test_count }
                && final(counts).state() == (State::Running {
                current_test_count: (current_test_count + 1) as usize,
                total_test_count,
            }),
            r.0 == final(counts).state(),
            r.1@ == TEST_SUCCESSFUL_PREFIX@ + self.test_name(),
    {
        let state = counts.inc();
        (state, joined(TEST_SUCCESSFUL_PREFIX, self.test_name.as_str()))
    }

    /// Ends the test as failed: a running count becomes failed. Gives the
    /// state to report, where it changed, and the line to report.
    pub fn test_failed(self, counts: &mut TestRunnerInvocationTestCounts) -> (r: (
        Option<State>,
        String,
    ))
        ensures
            final(counts).state() == if old(counts).state() is Running {
                State::Error
            } else {
                old(counts).state()
            },
            r.0 == if old(counts).state() is Running {
                Some(State::Error)
            } else {
                None
            },
            r.1@ == TEST_FAILED_PREFIX@ + self.test_name(),
    {
        let state = counts.fail_if_running();
        (state, joined(TEST_FAILED_PREFIX, self.test_name.as_str()))
    }
}

/// The line that reports the counts, from the counts written out as text.
pub fn test_counts_line(counts: &str) -> (r: String)
    ensures
        r@ == TEST_COUNTS_PREFIX@ + counts@,
{
    joined(TEST_COUNTS_PREFIX, counts)
}

/// What is handed to the process that runs tests again: what identifies each
/// test and each group to run, and nothing of their coverage.
#[derive(Debug)]
pub struct TestRerunnerInvocation {
    tests: Vec<TestInfo>,
    groups: Vec<GroupInfo>,
}

/// What identifies a test, as a plain value.
pub struct TestInfoView {
    /// The name of the test.
    pub test_name: Seq<char>,
    /// The path of the binary that holds the test.
    pub test_binary: Seq<char>,
    /// What else identifies the test.
    pub extra: Seq<char>,
}

/// What identifies a group, as a plain value.
pub struct GroupInfoView {
    /// The name of the group.
    pub group_name: Seq<char>,
    /// The binary that the group's tests share.
    pub bin_path: Seq<char>,
    /// What else identifies the group.
    pub extra: Seq<char>,
}

/// The test description `t` as a plain value.
pub open spec fn test_info_view(t: TestInfo) -> TestInfoView {
    TestInfoView { test_name: t.test_name@, test_binary: t.test_binary@, extra: t.extra@ }
}

/// The group description `g` as a plain value.
pub open spec fn group_info_view(g: GroupInfo) -> GroupInfoView {
    GroupInfoView { group_name: g.group_name@, bin_path: g.bin_path@, extra: g.extra@ }
}

/// The test descriptions as plain values, in order.
pub open spec fn test_infos(tests: Seq<TestInfo>) -> Seq<TestInfoView> {
    tests.map_values(|t: TestInfo| test_info_view(t))
}

/// The group descriptions as plain values, in order.
pub open spec fn group_infos(groups: Seq<GroupInfo>) -> Seq<GroupInfoView> {
    groups.map_values(|g: GroupInfo| group_info_view(g))
}

/// The descriptions of the tests of `results`, in order.
pub open spec fn result_tests(results: Seq<AnalyzeAllSingleTest>) -> Seq<TestInfoView> {
    results.map_values(|t: AnalyzeAllSingleTest| test_info_view(t.test_info))
}

/// The descriptions of the groups of `results`, in order.
pub open spec fn result_groups(results: Seq<AnalyzeAllSingleGroup>) -> Seq<GroupInfoView> {
    results.map_values(|g: AnalyzeAllSingleGroup| group_info_view(g.group_info))
}

/// The descriptions of the tests among `results` that are dirty, in order.
pub open spec fn dirty_tests(results: Seq<AnalyzeAllSingleTest>) -> Seq<TestInfoView>
    decreases results.len(),
{
    if results.len() == 0 {
        Seq::empty()
    } else {
        let before = dirty_tests(results.drop_last());
        if results.last().verdict == AnalysisVerdict::Dirty {
            before.push(test_info_view(results.last().test_info))
        } else {
            before
        }
    }
}

/// The descriptions of the groups among `results` that are dirty, in order.
pub open spec fn dirty_groups(results: Seq<AnalyzeAllSingleGroup>) -> Seq<GroupInfoView>
    decreases results.len(),
{
    if results.len() == 0 {
        Seq::empty()
    } else {
        let before = dirty_groups(results.drop_last());
        if results.last().verdict == AnalysisVerdict::Dirty {
            before.push(group_info_view(results.last().group_info))
        } else {
            before
        }
    }
}

impl TestRerunnerInvocation {
    /// The tests to run again, as plain values.
    pub closed spec fn test_views(self) -> Seq<TestInfoView> {
        test_infos(self.tests@)
    }

    /// The groups to run again, as plain values.
    pub closed spec fn group_views(self) -> Seq<GroupInfoView> {
        group_infos(self.groups@)
    }

    /// An invocation for the given tests and groups, whatever their verdicts.
    pub fn new(tests: Vec<TestInfo>, groups: Vec<GroupInfo>) -> (r: Self)
        ensures
            r.test_views() == test_infos(tests@),
            r.group_views() == group_infos(groups@),
    {
        TestRerunnerInvocation { tests, groups }
    }

    /// The invocation that runs the given tests and groups again, each in the
    /// order given and whatever its verdict.
    pub fn create_invocation_from(
        tests: &Vec<AnalyzeAllSingleTest>,
        groups: &Vec<AnalyzeAllSingleGroup>,
    ) -> (r: Self)
        ensures
            r.test_views() == result_tests(tests@),
            r.group_views() == result_groups(groups@),
    {
        let mut out_tests: Vec<TestInfo> = Vec::new();
        let mut i: usize = 0;
        assert(test_infos(out_tests@) =~= result_tests(tests@).take(0));
        while i < tests.len()
            invariant
                i <= tests.len(),
                test_infos(out_tests@) == result_tests(tests@).take(i as int),
            decreases tests.len() - i,
        {
            let ghost before = out_tests@;
            out_tests.push(tests[i].test_info.duplicate());
            assert(test_infos(out_tests@) =~= test_infos(before).push(
                test_info_view(tests@[i as int].test_info),
            ));
            assert(result_tests(tests@).take(i + 1) =~= result_tests(tests@).take(i as int).push(
                test_info_view(tests@[i as int].test_info),
            ));
            i += 1;
        }
        assert(result_tests(tests@).take(tests@.len() as int) =~= result_tests(tests@));
        let mut out_groups: Vec<GroupInfo> = Vec::new();
        let mut j: usize = 0;
        assert(group_infos(out_groups@) =~= result_groups(groups@).take(0));
        while j < groups.len()
            invariant
                j <= groups.len(),
                group_infos(out_groups@) == result_groups(groups@).take(j as int),
            decreases groups.len() - j,
        {
            let ghost before = out_groups@;
            out_groups.push(groups[j].group_info.duplicate());
            assert(group_infos(out_groups@) =~= group_infos(before).push(
                group_info_view(groups@[j as int].group_info),
            ));
            assert(result_groups(groups@).take(j + 1) =~= result_groups(groups@).take(
                j as int,
            ).push(group_info_view(groups@[j as int].group_info)));
            j += 1;
        }
        assert(result_groups(groups@).take(groups@.len() as int) =~= result_groups(groups@));
        TestRerunnerInvocation { tests: out_tests, groups: out_groups }
    }

    /// The invocation that runs again what is dirty among the results: the
    /// dirty tests and the dirty groups, each in the order of the results.
    pub fn create_invocation_from_dirty(
        tests: &Vec<AnalyzeAllSingleTest>,
        groups: &Vec<AnalyzeAllSingleGroup>,
    ) -> (r: Self)
        ensures
            r.test_views() == dirty_tests(tests@),
            r.group_views() == dirty_groups(groups@),
    {
        let mut out_tests: Vec<TestInfo> = Vec::new();
        let mut i: usize = 0;
        assert(test_infos(out_tests@) =~= dirty_tests(tests@.take(0)));
        while i < tests.len()
            invariant
                i <= tests.len(),
                test_infos(out_tests@) == dirty_tests(tests@.take(i as int)),
            decreases tests.len() - i,
        {
            assert(tests@.take(i + 1).drop_last() =~= tests@.take(i as int));
            if tests[i].verdict == AnalysisVerdict::Dirty {
                let ghost before = out_tests@;
                out_tests.push(tests[i].test_info.duplicate());
                assert(test_infos(out_tests@) =~= test_infos(before).push(
                    test_info_view(tests@[i as int].test_info),
                ));
            }
            i += 1;
        }
        assert(tests@.take(tests@.len() as int) =~= tests@);

        let mut out_groups: Vec<GroupInfo> = Vec::new();
        let mut j: usize = 0;
        assert(group_infos(out_groups@) =~= dirty_groups(groups@.take(0)));
        while j < groups.len()
            invariant
                j <= groups.len(),
                group_infos(out_groups@) == dirty_groups(groups@.take(j as int)),
            decreases groups.len() - j,
        {
            assert(groups@.take(j + 1).drop_last() =~= groups@.take(j as int));
            if groups[j].verdict == AnalysisVerdict::Dirty {
                let ghost before = out_groups@;
                out_groups.push(groups[j].group_info.duplicate());
                assert(group_infos(out_groups@) =~= group_infos(before).push(
                    group_info_view(groups@[j as int].group_info),
                ));
            }
            j += 1;
        }
        assert(groups@.take(groups@.len() as int) =~= groups@);
        TestRerunnerInvocation { tests: out_tests, groups: out_groups }
    }

    /// Whether there is nothing to run again.
    pub fn is_empty(&self) -> (r: bool)
        ensures
            r == (self.test_views().len() == 0 && self.group_views().len() == 0),
    {
        self.tests.is_empty() && self.groups.is_empty()
    }

    /// The tests to run again.
    pub fn tests(&self) -> (r: &Vec<TestInfo>)
        ensures
            test_infos(r@) == self.test_views(),
    {
        &self.tests
    }

    /// The groups to run again.
    pub fn groups(&self) -> (r: &Vec<GroupInfo>)
        ensures
            group_infos(r@) == self.group_views(),
    {
        &self.groups
    }

    /// Counts for this invocation, with nothing known yet.
    pub fn test_counts(&self) -> (r: TestRunnerInvocationTestCounts)
        ensures
            r.state() == State::Uninitialized,
    {
        TestRunnerInvocationTestCounts { state: State::Uninitialized }
    }
}

/// What a line of the rerunner's output says.
#[derive(Debug)]
pub enum ProgressLine {
    /// The counts, written out as text that is still to be read.
    TestCounts(String),
    /// The test of this name has started.
    StartTest(String),
    /// The test of this name has passed.
    TestSuccessful(String),
    /// The test of this name has failed.
    TestFailed(String),
    /// Something else: the line as it is.
    Other(String),
}

/// What a line of the rerunner's output says, as a plain value.
pub enum ProgressLineView {
    /// The counts, written out as text.
    TestCounts(Seq<char>),
    /// The test of this name has started.
    StartTest(Seq<char>),
    /// The test of this name has passed.
    TestSuccessful(Seq<char>),
    /// The test of this name has failed.
    TestFailed(Seq<char>),
    /// Something else: the line as it is.
    Other(Seq<char>),
}

impl View for ProgressLine {
    type V = ProgressLineView;

    open spec fn view(&self) -> ProgressLineView {
        match *self {
            ProgressLine::TestCounts(p) => ProgressLineView::TestCounts(p@),
            ProgressLine::StartTest(t) => ProgressLineView::StartTest(t@),
            ProgressLine::TestSuccessful(t) => ProgressLineView::TestSuccessful(t@),
            ProgressLine::TestFailed(t) => ProgressLineView::TestFailed(t@),
            ProgressLine::Other(l) => ProgressLineView::Other(l@),
        }
    }
}

/// What the line `line` says. The kind of line goes by what it begins with;
/// what follows, after every copy of that beginning, is the counts or the
/// name of the test.
pub open spec fn parsed_line(line: Seq<char>) -> ProgressLineView {
    if has_prefix(line, TEST_COUNTS_PREFIX@) {
        ProgressLineView::TestCounts(without_leading(line, TEST_COUNTS_PREFIX@))
    } else if has_prefix(line, START_TEST_PREFIX@) {
        ProgressLineView::StartTest(without_leading(line, START_TEST_PREFIX@))
    } else if has_prefix(line, TEST_SUCCESSFUL_PREFIX@) {
        ProgressLineView::TestSuccessful(without_leading(line, TEST_SUCCESSFUL_PREFIX@))
    } else if has_prefix(line, TEST_FAILED_PREFIX@) {
        ProgressLineView::TestFailed(without_leading(line, TEST_FAILED_PREFIX@))
    } else {
        ProgressLineView::Other(line)
    }
}

/// The lines that a rerunner writes are read back as they were meant: a line
/// made of a beginning and a name says that kind of thing of that name, as
/// long as the name does not itself start with that beginning.
pub proof fn law_progress_lines_read_back(name: Seq<char>)
    ensures
        !has_prefix(name, TEST_COUNTS_PREFIX@) ==> parsed_line(TEST_COUNTS_PREFIX@ + name)
            == ProgressLineView::TestCounts(name),
        !has_prefix(name, START_TEST_PREFIX@) ==> parsed_line(START_TEST_PREFIX@ + name)
            == ProgressLineView::StartTest(name),
        !has_prefix(name, TEST_SUCCESSFUL_PREFIX@) ==> parsed_line(TEST_SUCCESSFUL_PREFIX@ + name)
            == ProgressLineView::TestSuccessful(name),
        !has_prefix(name, TEST_FAILED_PREFIX@) ==> parsed_line(TEST_FAILED_PREFIX@ + name)
            == ProgressLineView::TestFailed(name),
{
    reveal_strlit("cargo-difftests-test-counts::");
    reveal_strlit("cargo-difftests-start-test::");
    reveal_strlit("cargo-difftests-test-successful::");
    reveal_strlit("cargo-difftests-test-failed::");
    let counts = TEST_COUNTS_PREFIX@;
    let start = START_TEST_PREFIX@;
    let successful = TEST_SUCCESSFUL_PREFIX@;
    let failed = TEST_FAILED_PREFIX@;
    lemma_prefixed_line(counts, name);
    lemma_prefixed_line(start, name);
    lemma_prefixed_line(successful, name);
    lemma_prefixed_line(failed, name);
    lemma_other_beginning(start, name, counts, 16);
    lemma_other_beginning(successful, name, counts, 21);
    lemma_other_beginning(successful, name, start, 16);
    lemma_other_beginning(failed, name, counts, 21);
    lemma_other_beginning(failed, name, start, 16);
    lemma_other_beginning(failed, name, successful, 21);
}

/// A line made of a beginning and a rest begins with that beginning, and
/// without it is the rest, unless the rest begins with it too.
proof fn lemma_prefixed_line(prefix: Seq<char>, rest: Seq<char>)
    requires
        prefix.len() > 0,
    ensures
        has_prefix(prefix + rest, prefix),
        !has_prefix(rest, prefix) ==> without_leading(prefix + rest, prefix) == rest,
{
    let line = prefix + rest;
    assert(line.subrange(0, prefix.len() as int) =~= prefix);
    assert(line.subrange(prefix.len() as int, line.len() as int) =~= rest);
    if !has_prefix(rest, prefix) {
        assert(without_leading(rest, prefix) == rest);
        assert(without_leading(line, prefix) == without_leading(
            line.subrange(prefix.len() as int, line.len() as int),
            prefix,
        ));
    }
}

/// A line does not begin with a beginning that differs from its own at some
/// position.
proof fn lemma_other_beginning(prefix: Seq<char>, rest: Seq<char>, other: Seq<char>, at: int)
    requires
        0 <= at < prefix.len(),
        at < other.len(),
        prefix[at] != other[at],
    ensures
        !has_prefix(prefix + rest, other),
{
    let line = prefix + rest;
    if has_prefix(line, other) {
        assert(line.subrange(0, other.len() as int)[at] == line[at]);
    }
}

/// Reads a line of the rerunner's output.
pub fn parse_progress_line(line: &str) -> (r: ProgressLine)
    ensures
        r@ == parsed_line(line@),
{
    if starts_with(line, TEST_COUNTS_PREFIX) {
        ProgressLine::TestCounts(trim_start_matches(line, TEST_COUNTS_PREFIX))
    } else if starts_with(line, START_TEST_PREFIX) {
        ProgressLine::StartTest(trim_start_matches(line, START_TEST_PREFIX))
    } else if starts_with(line, TEST_SUCCESSFUL_PREFIX) {
        ProgressLine::TestSuccessful(trim_start_matches(line, TEST_SUCCESSFUL_PREFIX))
    } else if starts_with(line, TEST_FAILED_PREFIX) {
        ProgressLine::TestFailed(trim_start_matches(line, TEST_FAILED_PREFIX))
    } else {
        ProgressLine::Other(line.to_owned())
    }
}

/// What to show of a rerun.
#[derive(Debug)]
pub enum ProgressAction {
    /// So many tests are to run.
    Init(usize),
    /// So many tests are done.
    Advance(usize),
    /// The rerun is done, with this message.
    Done(String),
    /// The rerun failed, with this message.
    Fail(String),
    /// Something to tell.
    Info(String),
    /// A line of output that is only noted.
    Log(String),
}

/// What to show of a rerun, as a plain value.
pub enum ProgressActionView {
    /// So many tests are to run.
    Init(usize),
    /// So many tests are done.
    Advance(usize),
    /// The rerun is done, with this message.
    Done(Seq<char>),
    /// The rerun failed, with this message.
    Fail(Seq<char>),
    /// Something to tell.
    Info(Seq<char>),
    /// A line of output that is only noted.
    Log(Seq<char>),
}

impl View for ProgressAction {
    type V = ProgressActionView;

    open spec fn view(&self) -> ProgressActionView {
        match *self {
            ProgressAction::Init(n) => ProgressActionView::Init(n),
            ProgressAction::Advance(n) => ProgressActionView::Advance(n),
            ProgressAction::Done(m) => ProgressActionView::Done(m@),
            ProgressAction::Fail(m) => ProgressActionView::Fail(m@),
            ProgressAction::Info(m) => ProgressActionView::Info(m@),
            ProgressAction::Log(m) => ProgressActionView::Log(m@),
        }
    }
}

/// The actions as plain values, in order.
pub open spec fn action_views(actions: Seq<ProgressAction>) -> Seq<ProgressActionView> {
    actions.map_values(|a: ProgressAction| a@)
}

/// What to show for the counts `counts`, where `initialized` says whether the
/// number of tests was shown before. Running counts show the number of tests
/// the first time, and the number done every time.
pub open spec fn shown_for_counts(initialized: bool, counts: State) -> Seq<ProgressActionView> {
    match counts {
        State::Uninitialized => seq![],
        State::Running { current_test_count, total_test_count } => if initialized {
            seq![ProgressActionView::Advance(current_test_count)]
        } else {
            seq![
                ProgressActionView::Init(total_test_count),
                ProgressActionView::Advance(current_test_count),
            ]
        },
        State::Done => seq![ProgressActionView::Done("Tests are done"@)],
        State::Error => seq![ProgressActionView::Fail("Tests failed"@)],
    }
}

/// What to show for a line that is not about the counts.
pub open spec fn shown_for_line(line: ProgressLineView) -> Option<ProgressActionView> {
    match line {
        ProgressLineView::TestCounts(_) => None,
        ProgressLineView::StartTest(t) => Some(ProgressActionView::Info("Running test "@ + t)),
        ProgressLineView::TestSuccessful(t) => Some(
            ProgressActionView::Info("Test "@ + t + " successful"@),
        ),
        ProgressLineView::TestFailed(t) => Some(
            ProgressActionView::Info("Test "@ + t + " failed"@),
        ),
        ProgressLineView::Other(l) => Some(ProgressActionView::Log("rerun stdout: "@ + l)),
    }
}

/// What was shown of a rerun so far.
#[derive(Clone, Copy, Debug)]
pub struct RerunProgress {
    /// Whether the number of tests was shown.
    pub tests_initialized: bool,
}

impl RerunProgress {
    /// The progress of a rerun of which nothing was shown yet.
    pub fn new() -> (r: Self)
        ensures
            !r.tests_initialized,
    {
        RerunProgress { tests_initialized: false }
    }

    /// What to show for the counts `counts`.
    pub fn on_counts(&mut self, counts: State) -> (r: Vec<ProgressAction>)
        ensures
            final(self).tests_initialized == (old(self).tests_initialized || counts is Running),
            action_views(r@) == shown_for_counts(old(self).tests_initialized, counts),
    {
        let mut out: Vec<ProgressAction> = Vec::new();
        match counts {
            State::Uninitialized => {},
            State::Running { current_test_count, total_test_count } => {
                if !self.tests_initialized {
                    out.push(ProgressAction::Init(total_test_count));
                    self.tests_initialized = true;
                }
                out.push(ProgressAction::Advance(current_test_count));
            },
            State::Done => {
                out.push(ProgressAction::Done("Tests are done".to_owned()));
            },
            State::Error => {
                out.push(ProgressAction::Fail("Tests failed".to_owned()));
            },
        }
        assert(action_views(out@) =~= shown_for_counts(old(self).tests_initialized, counts));
        out
    }
}

/// What to show for a line that is not about the counts.
pub fn action_for_line(line: &ProgressLine) -> (r: Option<ProgressAction>)
    ensures
        match r {
            Some(a) => Some(a@) == shown_for_line(line@),
            None => shown_for_line(line@).is_none(),
        },
{
    match line {
        ProgressLine::TestCounts(_) => None,
        ProgressLine::StartTest(t) => Some(
            ProgressAction::Info(joined("Running test ", t.as_str())),
        ),
        ProgressLine::TestSuccessful(t) => {
            let head = joined("Test ", t.as_str());
            Some(ProgressAction::Info(joined(head.as_str(), " successful")))
        },
        ProgressLine::TestFailed(t) => {
            let head = joined("Test ", t.as_str());
            Some(ProgressAction::Info(joined(head.as_str(), " failed")))
        },
        ProgressLine::Other(l) => Some(ProgressAction::Log(joined("rerun stdout: ", l.as_str()))),
    }
}

/// Why a rerunner cannot take up its invocation.
#[derive(Debug)]
pub enum InvocationError {
    /// The variable that names the caller's version is not set.
    MissingVersion,
    /// The caller is of another version: the rerunner's own, then the caller's.
    VersionMismatch { expected: String, got: String },
    /// The command line names no invocation file.
    MissingInvocationFile,
}

/// Finds the invocation file of a rerunner from its environment and command
/// line: `version` is what the version variable holds, `args` the command
/// line with the program's name first, `own_version` the rerunner's version.
/// The versions have to be the same text; the file is the first argument.
pub fn read_invocation_from_command_line(
    version: &Option<String>,
    args: &Vec<String>,
    own_version: &str,
) -> (r: Result<String, InvocationError>)
    ensures
        version.is_none() ==> r matches Err(InvocationError::MissingVersion),
        version.is_some() && version.unwrap()@ != own_version@ ==> (r matches Err(
            InvocationError::VersionMismatch { expected, got },
        ) && expected@ == own_version@ && got@ == version.unwrap()@),
        version.is_some() && version.unwrap()@ == own_version@ && args@.len() < 2 ==> r matches Err(
            InvocationError::MissingInvocationFile,
        ),
        version.is_some() && version.unwrap()@ == own_version@ && args@.len() >= 2 ==> (
        r matches Ok(f) && f@ == args@[1]@),
{
    match version {
        None => Err(InvocationError::MissingVersion),
        Some(v) => {
            if !same_text(v.as_str(), own_version) {
                Err(
                    InvocationError::VersionMismatch {
                        expected: own_version.to_owned(),
                        got: v.clone(),
                    },
                )
            } else if args.len() < 2 {
                Err(InvocationError::MissingInvocationFile)
            } else {
                Ok(args[1].clone())
            }
        },
    }
}

} // verus!
