use cargo_difftests::analysis::{
    AnalysisVerdict, AnalyzeAllSingleTest, DirtyAlgorithm as Algorithm, GitDiffStrategy,
};
use cargo_difftests::cli_core::{
    any_dirty, compile_test_index_config, resolver_for_index_root, AnalysisIndex,
    AnalysisIndexStrategy, AnalyzeAllActionArgs, AnalyzeAllActionKind, AnalyzeAllOutcome,
    CompileConfigError, CompileTestIndexFlags, DirtyAlgorithm, ExportProfdataConfigFlags,
    FlattenFilesTarget, IgnoreRegistryFilesFlag, IndexPathOrResolve, IndexResolverError,
    IndexesTouchSameFilesReportAction, OtherBinaries, ReportOutcome, RerunRunner,
};
use cargo_difftests::compile_index_and_clean_config::{
    CompileIndexAndCleanConfigBuilder, FlattenFilesToTarget, RunOnDrop,
};
use cargo_difftests::difftest::{TestInfo, Timestamp};
use cargo_difftests::index_compare::{compare_indexes_touch_same_files, TouchSameFilesDifference};
use cargo_difftests::index_data::{FileFilterPolicy, IndexSize, PathRewritePolicy, TestIndex};
use cargo_difftests::ops::{
    analyze_single_group, analyze_single_test, discover_difftests, is_test_target,
    parse_test_list_line, rerun_test_args, AnalysisPlan, AnalysisSource,
    CollectProfilingDataCommand, DiscoverDifftestsCommand, DiscoverPlan, InvalidTestListLine,
    ListedTest, TestHarness,
};
use cargo_difftests::paths::DiscoverIndexPathResolver;
use cargo_difftests::rustc_wrapper_impl::{
    contains_pair, instrument, is_difftests_profile, is_workspace_member, rustc_wrapper_impl,
};
use cargo_difftests::text::{
    chars_of, contains, find_first, joined, lines, same_text, slice_of, split_once, starts_with,
    trim_start_matches,
};

fn strings(v: &[&str]) -> Vec<String> {
    v.iter().map(|s| s.to_string()).collect()
}

#[test]
fn a_config_is_built_step_by_step() {
    let config = CompileIndexAndCleanConfigBuilder::new("/t/test_add".to_string())
        .index_path("/i/test_add.json".to_string())
        .build();
    assert_eq!(
        config.command_args(false),
        strings(&[
            "difftests",
            "low-level",
            "test-client-compile-test-index-and-clean",
            "--dir",
            "/t/test_add",
            "--output",
            "/i/test_add.json",
        ])
    );
    let builder = CompileIndexAndCleanConfigBuilder::new("/t/test_add".to_string());
    assert!(!builder.has_index_resolver());
    let builder = builder.roots("/i".to_string(), "/t".to_string());
    assert!(builder.has_index_resolver());
    let config = builder
        .other_bins(strings(&["/bin/a"]))
        .other_bins(strings(&["/bin/b"]))
        .flatten_files_to(Some(FlattenFilesToTarget::RepoRoot))
        .remove_bin_path(false)
        .full_index(true)
        .path_slash_replace(false)
        .build();
    let expected = strings(&[
        "difftests",
        "low-level",
        "test-client-compile-test-index-and-clean",
        "--dir",
        "/t/test_add",
        "--index-root",
        "/i",
        "--root",
        "/t",
        "--output",
        "resolve",
        "--flatten-files-to=repo-root",
        "--no-remove-bin-path",
        "--full-index",
        "--bin",
        "/bin/a",
        "--bin",
        "/bin/b",
    ]);
    assert_eq!(config.command_args(false), expected);
    let mut on_windows = expected.clone();
    on_windows.insert(14, "--no-path-slash-replace".to_string());
    assert_eq!(config.command_args(true), on_windows);
    assert_eq!(config.other_bins(), strings(&["/bin/a", "/bin/b"]));
    let kept = RunOnDrop::new(config);
    assert_eq!(kept.0.command_args(false), expected);
}

fn analysis_index(strategy: AnalysisIndexStrategy, index_root: Option<&str>) -> AnalysisIndex {
    AnalysisIndex {
        compile_index: false,
        index_root: index_root.map(|s| s.to_string()),
        index_strategy: strategy,
        compile_test_index_flags: CompileTestIndexFlags::default(),
    }
}

fn roots(r: Option<DiscoverIndexPathResolver>) -> Option<(String, String)> {
    match r {
        Some(DiscoverIndexPathResolver::Remap { from, to }) => Some((from, to)),
        _ => None,
    }
}

#[test]
fn the_index_resolver_needs_both_roots() {
    let never = analysis_index(AnalysisIndexStrategy::Never, None);
    assert!(never.index_resolver(None).unwrap().is_none());
    assert!(never.index_resolver(Some("/t".to_string())).unwrap().is_none());
    for strategy in [
        AnalysisIndexStrategy::Always,
        AnalysisIndexStrategy::AlwaysAndClean,
        AnalysisIndexStrategy::IfAvailable,
    ] {
        let without = analysis_index(strategy, None);
        assert_eq!(
            without.index_resolver(Some("/t".to_string())).unwrap_err(),
            IndexResolverError::IndexRootIsNone
        );
        assert_eq!(without.index_resolver(None).unwrap_err(), IndexResolverError::IndexRootIsNone);
        let with = analysis_index(strategy, Some("/i"));
        assert_eq!(with.index_resolver(None).unwrap_err(), IndexResolverError::RootIsNone);
        assert_eq!(
            roots(with.index_resolver(Some("/t".to_string())).unwrap()),
            Some(("/t".to_string(), "/i".to_string()))
        );
    }
    let mut compile = analysis_index(AnalysisIndexStrategy::Never, Some("/i"));
    compile.compile_index = true;
    assert_eq!(
        roots(compile.index_resolver(Some("/t".to_string())).unwrap()),
        Some(("/t".to_string(), "/i".to_string()))
    );
    assert_eq!(
        roots(resolver_for_index_root("/t", Some("/i".to_string()))),
        Some(("/t".to_string(), "/i".to_string()))
    );
    assert!(resolver_for_index_root("/t", None).is_none());
    assert_eq!(
        IndexResolverError::RootIsNone.to_string(),
        "--root was not provided, but was required by the --index-strategy"
    );
    assert_eq!(
        IndexResolverError::IndexRootIsNone.to_string(),
        "--index-root was not provided, but was required by the --index-strategy"
    );
}

#[test]
fn choices_have_their_words_and_defaults() {
    assert_eq!(FlattenFilesTarget::RepoRoot.to_string(), "repo-root");
    assert_eq!(AnalysisIndexStrategy::Always.to_string(), "always");
    assert_eq!(AnalysisIndexStrategy::IfAvailable.to_string(), "if-available");
    assert_eq!(AnalysisIndexStrategy::Never.to_string(), "never");
    assert_eq!(AnalysisIndexStrategy::AlwaysAndClean.to_string(), "always-and-clean");
    assert_eq!(AnalysisIndexStrategy::default(), AnalysisIndexStrategy::Never);
    assert_eq!(DirtyAlgorithm::FsMtime.to_string(), "fs-mtime");
    assert_eq!(DirtyAlgorithm::GitDiffFiles.to_string(), "git-diff-files");
    assert_eq!(DirtyAlgorithm::GitDiffHunks.to_string(), "git-diff-hunks");
    assert_eq!(DirtyAlgorithm::default(), DirtyAlgorithm::FsMtime);
    assert_eq!(AnalyzeAllActionKind::Print.to_string(), "print");
    assert_eq!(AnalyzeAllActionKind::AssertClean.to_string(), "assert-clean");
    assert_eq!(AnalyzeAllActionKind::RerunDirty.to_string(), "rerun-dirty");
    assert_eq!(AnalyzeAllActionKind::default(), AnalyzeAllActionKind::Print);
    assert_eq!(IndexesTouchSameFilesReportAction::Print.to_string(), "print");
    assert_eq!(IndexesTouchSameFilesReportAction::Assert.to_string(), "assert");
    assert_eq!(
        IndexesTouchSameFilesReportAction::default(),
        IndexesTouchSameFilesReportAction::Print
    );
    let flags = CompileTestIndexFlags::default();
    assert_eq!(flags.flatten_files_to, Some(FlattenFilesTarget::RepoRoot));
    assert!(flags.remove_bin_path && !flags.full_index && flags.path_slash_replace);
    assert!(matches!(IndexPathOrResolve::from("resolve".to_string()), IndexPathOrResolve::Resolve));
    match IndexPathOrResolve::from("resolved".to_string()) {
        IndexPathOrResolve::Path(p) => assert_eq!(p, "resolved"),
        other => panic!("{:?}", other),
    }
}

#[test]
fn the_algorithm_of_the_command_line_is_converted() {
    assert!(matches!(DirtyAlgorithm::FsMtime.convert(None), Algorithm::FileSystemMtimes));
    match DirtyAlgorithm::GitDiffFiles.convert(Some("abc".to_string())) {
        Algorithm::GitDiff { strategy, commit } => {
            assert_eq!(strategy, GitDiffStrategy::FilesOnly);
            assert_eq!(commit, Some("abc".to_string()));
        }
        other => panic!("{:?}", other),
    }
    match DirtyAlgorithm::GitDiffHunks.convert(None) {
        Algorithm::GitDiff { strategy, commit } => {
            assert_eq!(strategy, GitDiffStrategy::Hunks);
            assert_eq!(commit, None);
        }
        other => panic!("{:?}", other),
    }
}

fn result(name: &str, verdict: AnalysisVerdict) -> AnalyzeAllSingleTest {
    AnalyzeAllSingleTest {
        test_info: TestInfo {
            test_name: name.to_string(),
            test_binary: String::new(),
            extra: String::new(),
        },
        verdict,
    }
}

#[test]
fn verdicts_are_printed_asserted_or_rerun() {
    let args = |action| AnalyzeAllActionArgs {
        action,
        runner: RerunRunner { runner: "cargo-difftests-default-rerunner".to_string() },
    };
    let clean = vec![result("a", AnalysisVerdict::Clean)];
    let mixed = vec![
        result("a", AnalysisVerdict::Clean),
        result("b", AnalysisVerdict::Dirty),
        result("c", AnalysisVerdict::Dirty),
    ];
    assert!(!any_dirty(&clean));
    assert!(any_dirty(&mixed));
    assert!(!any_dirty(&vec![]));
    assert!(matches!(
        args(AnalyzeAllActionKind::Print).perform_for(&mixed),
        AnalyzeAllOutcome::PrintResults
    ));
    assert!(matches!(
        args(AnalyzeAllActionKind::AssertClean).perform_for(&clean),
        AnalyzeAllOutcome::Nothing
    ));
    assert!(matches!(
        args(AnalyzeAllActionKind::AssertClean).perform_for(&mixed),
        AnalyzeAllOutcome::SomeTestsAreDirty
    ));
    assert!(matches!(
        args(AnalyzeAllActionKind::RerunDirty).perform_for(&clean),
        AnalyzeAllOutcome::Nothing
    ));
    match args(AnalyzeAllActionKind::RerunDirty).perform_for(&mixed) {
        AnalyzeAllOutcome::Rerun(invocation) => {
            let names: Vec<&str> =
                invocation.tests().iter().map(|t| t.test_name.as_str()).collect();
            assert_eq!(names, vec!["b", "c"]);
            assert!(invocation.groups().is_empty());
        }
        other => panic!("{:?}", other),
    }
    let report = IndexesTouchSameFilesReportAction::Assert;
    assert_eq!(report.do_for_report(true), ReportOutcome::Nothing);
    assert_eq!(report.do_for_report(false), ReportOutcome::Fail);
    let report = IndexesTouchSameFilesReportAction::Print;
    assert_eq!(report.do_for_report(true), ReportOutcome::PrintDifferences);
    assert_eq!(report.do_for_report(false), ReportOutcome::PrintDifferences);
}

#[test]
fn flags_make_the_settings_of_the_index_compiler() {
    let ignore = IgnoreRegistryFilesFlag { ignore_registry_files: true };
    let keep = IgnoreRegistryFilesFlag { ignore_registry_files: false };
    let flags = CompileTestIndexFlags::default();
    let config =
        compile_test_index_config(flags, ignore, Some("/work".to_string()), false).unwrap();
    assert!(config.ignore_registry_files && config.remove_bin_path);
    assert_eq!(config.accept_file, FileFilterPolicy::IgnoreRegistryPaths);
    assert_eq!(config.index_size, IndexSize::Tiny);
    assert_eq!(config.index_filename_converter.len(), 1);
    match &config.index_filename_converter[0] {
        PathRewritePolicy::RelativeToRoot(root) => assert_eq!(root, "/work"),
        other => panic!("{:?}", other),
    }
    assert_eq!(
        compile_test_index_config(flags, ignore, None, false).unwrap_err(),
        CompileConfigError::RepoHasNoWorkdir
    );
    let flags = CompileTestIndexFlags {
        flatten_files_to: None,
        remove_bin_path: false,
        full_index: true,
        path_slash_replace: true,
    };
    let config = compile_test_index_config(flags, keep, None, true).unwrap();
    assert!(config.ignore_registry_files && !config.remove_bin_path);
    assert_eq!(config.accept_file, FileFilterPolicy::AcceptAll);
    assert_eq!(config.index_size, IndexSize::Full);
    assert_eq!(config.index_filename_converter.len(), 1);
    assert!(matches!(
        config.index_filename_converter[0],
        PathRewritePolicy::PlatformSlashNormalize
    ));
    let config = compile_test_index_config(flags, keep, Some("/w".to_string()), false).unwrap();
    assert!(config.index_filename_converter.is_empty());
    let export = ExportProfdataConfigFlags {
        other_binaries: OtherBinaries { other_binaries: strings(&["/bin/a"]) },
    }
    .config(keep);
    assert!(!export.ignore_registry_files);
    assert_eq!(export.other_binaries, strings(&["/bin/a"]));
}

fn plan_of(plan: AnalysisPlan) -> (bool, String) {
    let source = match plan.source {
        AnalysisSource::Coverage => "coverage".to_string(),
        AnalysisSource::ExistingIndex => "index".to_string(),
        AnalysisSource::CompiledIndex { write_to, clean } => {
            format!("compile, write to {:?}, clean: {}", write_to, clean)
        }
    };
    (plan.merge_profraws, source)
}

#[test]
fn the_steps_of_an_analysis_go_by_the_strategy() {
    let resolver = DiscoverIndexPathResolver::Remap { from: "/t".to_string(), to: "/i".to_string() };
    let plan = |strategy, has_index, resolver: Option<&DiscoverIndexPathResolver>, dir: &str| {
        plan_of(analyze_single_test(strategy, has_index, resolver, dir))
    };
    for has_index in [false, true] {
        assert_eq!(
            plan(AnalysisIndexStrategy::Never, has_index, Some(&resolver), "/t/a"),
            (true, "coverage".to_string())
        );
    }
    for strategy in [
        AnalysisIndexStrategy::Always,
        AnalysisIndexStrategy::AlwaysAndClean,
        AnalysisIndexStrategy::IfAvailable,
    ] {
        assert_eq!(plan(strategy, true, Some(&resolver), "/t/a"), (false, "index".to_string()));
        assert_eq!(
            plan_of(analyze_single_group(strategy, true, None, "/t/a")),
            (false, "index".to_string())
        );
    }
    assert_eq!(
        plan(AnalysisIndexStrategy::Always, false, Some(&resolver), "/t/a"),
        (true, "compile, write to Some(\"/i/a\"), clean: false".to_string())
    );
    assert_eq!(
        plan(AnalysisIndexStrategy::AlwaysAndClean, false, Some(&resolver), "/t/a"),
        (true, "compile, write to Some(\"/i/a\"), clean: true".to_string())
    );
    assert_eq!(
        plan(AnalysisIndexStrategy::AlwaysAndClean, false, Some(&resolver), "/elsewhere/a"),
        (true, "compile, write to None, clean: false".to_string())
    );
    assert_eq!(
        plan(AnalysisIndexStrategy::AlwaysAndClean, false, None, "/t/a"),
        (true, "compile, write to None, clean: false".to_string())
    );
    assert_eq!(
        plan_of(analyze_single_group(AnalysisIndexStrategy::IfAvailable, false, Some(&resolver), "/t/a")),
        (true, "coverage".to_string())
    );
}

#[test]
fn test_lists_name_the_tests_of_a_harness() {
    assert_eq!(parse_test_list_line("test_add: test"), Ok(Some("test_add".to_string())));
    assert_eq!(parse_test_list_line("m::test_add: test"), Ok(Some("m::test_add".to_string())));
    assert_eq!(parse_test_list_line("bench_add: benchmark"), Ok(None));
    assert_eq!(parse_test_list_line("a: b: test"), Ok(None));
    assert_eq!(parse_test_list_line("test_add:test"), Err(InvalidTestListLine));
    assert_eq!(parse_test_list_line(""), Err(InvalidTestListLine));
    let harness = TestHarness("/bin/tests-01".to_string(), "tests".to_string());
    let tests = harness
        .list_tests("test_add: test\nbench: benchmark\r\ntest_sub: test\n")
        .unwrap();
    assert_eq!(tests.len(), 2);
    assert_eq!(tests[0].get_name(), "test_add");
    assert_eq!(tests[1].get_name(), "test_sub");
    assert_eq!(tests[0].get_harness_name(), "tests");
    assert_eq!(tests[0].get_harness_path(), "/bin/tests-01");
    assert!(harness.list_tests("test_add: test\nnonsense").is_err());
    assert!(harness.list_tests("test_add: test\n\n").is_err());
    assert!(harness.list_tests("").unwrap().is_empty());
    assert!(is_test_target(&strings(&["lib", "test"])));
    assert!(!is_test_target(&strings(&["lib", "tests"])));
}

#[test]
fn a_test_is_run_alone_for_its_coverage() {
    let test = ListedTest(
        TestHarness("/bin/tests-01".to_string(), "tests".to_string()),
        "test_add".to_string(),
    );
    assert_eq!(test.difftest_dir("/root"), "/root/tests/test_add");
    let command = test.run_test_and_collect_profiling_data("/root/tests/test_add");
    assert_eq!(command.program, "/bin/tests-01");
    assert_eq!(command.args, strings(&["--exact", "test_add", "--nocapture"]));
    assert_eq!(
        command.env,
        vec![
            ("CARGO_DIFFTEST_DIR".to_string(), "/root/tests/test_add".to_string()),
            ("LLVM_PROFILE_FILE".to_string(), "/root/tests/test_add/%p_%m.profraw".to_string()),
            ("RUSTC_WORKSPACE_WRAPPER".to_string(), "rustc-wrapper-difftests".to_string()),
        ]
    );
    let plain = test.run_test(vec![]);
    assert_eq!(plain.args, strings(&["--exact", "test_add", "--nocapture"]));
    assert!(plain.env.is_empty());
    assert_eq!(
        rerun_test_args("test_add"),
        strings(&["collect-profiling-data", "--filter", "test_add", "--exact"])
    );
}

#[test]
fn tests_are_taken_by_filter() {
    let harness = TestHarness("/bin/t".to_string(), "tests".to_string());
    let tests: Vec<ListedTest> = ["test_add", "test_sub", "test_add_2"]
        .iter()
        .map(|n| ListedTest(harness.clone(), n.to_string()))
        .collect();
    let taken = |filter: Option<&str>, exact| -> Vec<String> {
        CollectProfilingDataCommand { filter: filter.map(|s| s.to_string()), exact }
            .retain(&tests)
            .iter()
            .map(|t| t.get_name().clone())
            .collect()
    };
    assert_eq!(taken(None, false), strings(&["test_add", "test_sub", "test_add_2"]));
    assert_eq!(taken(None, true), strings(&["test_add", "test_sub", "test_add_2"]));
    assert_eq!(taken(Some("test_add"), false), strings(&["test_add", "test_add_2"]));
    assert_eq!(taken(Some("test_add"), true), strings(&["test_add"]));
    assert_eq!(taken(Some("sub"), false), strings(&["test_sub"]));
    assert_eq!(taken(Some("sub"), true), Vec::<String>::new());
    assert!(CollectProfilingDataCommand { filter: Some("x".to_string()), exact: false }
        .takes("axb"));
}

#[test]
fn discovery_needs_a_directory() {
    assert!(matches!(
        discover_difftests("/t", false, false, None, false),
        DiscoverPlan::NothingThere
    ));
    assert!(matches!(
        discover_difftests("/t", true, false, Some("/i".to_string()), false),
        DiscoverPlan::NothingThere
    ));
    match discover_difftests("/t", true, true, Some("/i".to_string()), true) {
        DiscoverPlan::Discover { resolver, ignore_incompatible } => {
            assert!(ignore_incompatible);
            assert_eq!(roots(resolver), Some(("/t".to_string(), "/i".to_string())));
        }
        other => panic!("{:?}", other),
    }
    let command = DiscoverDifftestsCommand {
        dir: "/t".to_string(),
        index_root: None,
        ignore_incompatible: false,
    };
    match command.clone().run(true, true) {
        DiscoverPlan::Discover { resolver, ignore_incompatible } => {
            assert!(!ignore_incompatible);
            assert!(resolver.is_none());
        }
        other => panic!("{:?}", other),
    }
    assert!(matches!(command.run(false, true), DiscoverPlan::NothingThere));
}

#[test]
fn the_wrapper_asks_for_instrumentation_where_it_is_due() {
    let plain = strings(&["--crate-name", "x", "src/lib.rs"]);
    let profile = strings(&["--crate-name", "x", "--cfg", "cargo_difftests", "src/lib.rs"]);
    assert!(!is_difftests_profile(&plain));
    assert!(is_difftests_profile(&profile));
    assert!(!is_difftests_profile(&strings(&["--cfg", "feature", "cargo_difftests"])));
    assert!(!is_difftests_profile(&strings(&["cargo_difftests", "--cfg"])));
    assert!(!is_difftests_profile(&strings(&["--cfg"])));
    assert!(!is_difftests_profile(&vec![]));
    assert!(contains_pair(&strings(&["a", "b"]), "a", "b"));
    assert_eq!(rustc_wrapper_impl(plain.clone(), true), plain);
    assert_eq!(rustc_wrapper_impl(profile.clone(), false), profile);
    let mut instrumented = profile.clone();
    instrumented.extend(strings(&["-C", "instrument-coverage"]));
    assert_eq!(rustc_wrapper_impl(profile.clone(), true), instrumented);
    assert_eq!(rustc_wrapper_impl(instrumented.clone(), true), instrumented);
    let mut always = plain.clone();
    always.extend(strings(&["-C", "instrument-coverage"]));
    assert_eq!(instrument(plain), always);
    assert_eq!(instrument(always.clone()), always);
    assert!(is_workspace_member("rustc-wrapper-difftests-workspace"));
    assert!(is_workspace_member("rustc-wrapper-difftests-workspace.exe"));
    assert!(!is_workspace_member("rustc-wrapper-difftests"));
}

fn index(files: &[&str]) -> TestIndex {
    TestIndex {
        regions: vec![],
        files: strings(files),
        test_run: Timestamp { nanos: 0 },
        test_info: TestInfo {
            test_name: String::new(),
            test_binary: String::new(),
            extra: String::new(),
        },
    }
}

#[test]
fn indexes_are_compared_by_the_files_they_touch() {
    let a = index(&["a.rs", "b.rs", "c.rs"]);
    let b = index(&["c.rs", "d.rs", "a.rs"]);
    assert!(compare_indexes_touch_same_files(&a, &index(&["c.rs", "b.rs", "a.rs"])).is_ok());
    assert!(compare_indexes_touch_same_files(&index(&[]), &index(&[])).is_ok());
    let differences = compare_indexes_touch_same_files(&a, &b).unwrap_err();
    let told: Vec<String> = differences
        .differences()
        .iter()
        .map(|d| match d {
            TouchSameFilesDifference::TouchedByFirstOnly(f) => format!("first:{f}"),
            TouchSameFilesDifference::TouchedBySecondOnly(f) => format!("second:{f}"),
        })
        .collect();
    assert_eq!(told, strings(&["first:b.rs", "second:d.rs"]));
}

#[test]
fn texts_are_cut_at_their_occurrences() {
    assert_eq!(chars_of("añb"), vec!['a', 'ñ', 'b']);
    assert!(starts_with("abc", "ab") && starts_with("abc", "") && !starts_with("ab", "abc"));
    assert!(contains("abc", "bc") && contains("abc", "") && !contains("abc", "cb"));
    assert_eq!(find_first(&chars_of("abcabc"), &chars_of("bc")), Some(1));
    assert_eq!(find_first(&chars_of("abc"), &chars_of("d")), None);
    assert_eq!(split_once("a: b: c", ": "), Some(("a".to_string(), "b: c".to_string())));
    assert_eq!(split_once("añ: b", ": "), Some(("añ".to_string(), "b".to_string())));
    assert_eq!(split_once("abc", ": "), None);
    assert_eq!(trim_start_matches("ababc", "ab"), "c");
    assert_eq!(trim_start_matches("abc", "b"), "abc");
    assert_eq!(trim_start_matches("abc", ""), "abc");
    assert_eq!(trim_start_matches("ñññx", "ñ"), "x");
    assert_eq!(slice_of("añbc", 1, 3), "ñb");
    assert_eq!(joined("ab", "cd"), "abcd");
    assert!(same_text("ab", "ab") && !same_text("ab", "abc") && !same_text("ab", "ba"));
}

#[test]
fn texts_are_split_into_lines_as_the_standard_library_does() {
    for text in [
        "",
        "a",
        "a\n",
        "a\nb",
        "a\r\nb\r\n",
        "a\r",
        "a\r\r\n",
        "\n",
        "\n\n",
        "a\n\nb",
        "\r\n",
        "ñ\r\nü\n",
        "a\rb\nc",
    ] {
        let expected: Vec<String> = text.lines().map(|l| l.to_string()).collect();
        assert_eq!(lines(text), expected, "for {:?}", text);
    }
    assert_eq!(lines("a\r\nb\n\nc"), strings(&["a", "b", "", "c"]));
}
