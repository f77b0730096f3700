use cargo_difftests::analysis_data::{
    CoverageBranch, CoverageBranchSerDe, CoverageData, CoverageFileSegment,
    CoverageFileSegmentSerDe, CoverageFunction, CoverageFunctionRegionSerDe, CoverageMapping,
    Region,
};
use cargo_difftests::difftest::{TestInfo, Timestamp};
use cargo_difftests::index_data::{
    find_text, rewrite_by_all, FileFilterPolicy, IndexDataCompilerConfig, IndexRegion,
    IndexRegionSerDe, IndexSize, PathRewritePolicy, TestIndex,
};
use cargo_difftests::paths::{
    components_name_registry, file_is_from_cargo_registry, DiscoverIndexPathResolver,
};

fn region(l1: usize, c1: usize, l2: usize, c2: usize, count: usize, file_id: usize) -> Region {
    Region::from(CoverageFunctionRegionSerDe([l1, c1, l2, c2, count, file_id, 0, 0]))
}

fn function(name: &str, filenames: &[&str], regions: Vec<Region>) -> CoverageFunction {
    CoverageFunction::new(
        name,
        1,
        filenames.iter().map(|s| s.to_string()).collect(),
        regions,
        vec![],
    )
}

fn report(functions: Vec<CoverageFunction>) -> CoverageData {
    CoverageData {
        data: vec![CoverageMapping { functions }],
        kind: "llvm.coverage.json.export".to_string(),
        version: "2.0.1".to_string(),
    }
}

fn info() -> TestInfo {
    TestInfo {
        test_name: "test_add".to_string(),
        test_binary: "/work/target/debug/deps/tests-0123".to_string(),
        extra: "{\"pkg_name\":\"sample\"}".to_string(),
    }
}

fn config(size: IndexSize) -> IndexDataCompilerConfig {
    IndexDataCompilerConfig {
        ignore_registry_files: true,
        remove_bin_path: true,
        index_filename_converter: vec![PathRewritePolicy::RelativeToRoot("/work".to_string())],
        accept_file: FileFilterPolicy::IgnoreRegistryPaths,
        index_size: size,
    }
}

fn sample_report() -> CoverageData {
    report(vec![
        function(
            "_ZN6sample3addE",
            &["/work/src/lib.rs", "/home/u/.cargo/registry/src/x/serde/src/lib.rs"],
            vec![
                region(2, 1, 2, 20, 1, 0),
                region(5, 1, 7, 2, 0, 0),
                region(10, 1, 11, 2, 3, 1),
            ],
        ),
        function(
            "_ZN6sample3subE",
            &["/work/src/arith.rs", "/work/src/lib.rs"],
            vec![region(1, 1, 3, 2, 4, 0), region(2, 1, 2, 20, 2, 1)],
        ),
    ])
}

fn quads(index: &TestIndex) -> Vec<[usize; 6]> {
    index
        .regions
        .iter()
        .map(|r| IndexRegionSerDe::from(*r).0)
        .collect()
}

#[test]
fn full_index_holds_each_touched_file_once_and_every_touch() {
    let data = sample_report();
    assert!(data.is_well_formed());
    let index = TestIndex::index(Timestamp { nanos: 1_000 }, info(), &data, &config(IndexSize::Full));
    assert_eq!(index.files, vec!["src/lib.rs".to_string(), "src/arith.rs".to_string()]);
    assert_eq!(
        quads(&index),
        vec![[2, 1, 2, 20, 1, 0], [1, 1, 3, 2, 4, 1], [2, 1, 2, 20, 2, 0]]
    );
    assert_eq!(index.test_run, Timestamp { nanos: 1_000 });
    assert!(index.is_well_formed());
}

#[test]
fn tiny_index_holds_files_and_no_regions() {
    let data = sample_report();
    let index = TestIndex::index(Timestamp { nanos: 5 }, info(), &data, &config(IndexSize::Tiny));
    assert_eq!(index.files, vec!["src/lib.rs".to_string(), "src/arith.rs".to_string()]);
    assert!(index.regions.is_empty());
}

#[test]
fn regions_that_never_ran_are_left_out() {
    let data = report(vec![function(
        "f",
        &["/work/src/lib.rs", "/work/src/never.rs"],
        vec![region(1, 1, 1, 5, 0, 0), region(3, 1, 4, 5, 0, 1)],
    )]);
    let index = TestIndex::index(Timestamp { nanos: 5 }, info(), &data, &config(IndexSize::Full));
    assert!(index.files.is_empty());
    assert!(index.regions.is_empty());
}

#[test]
fn registry_files_are_kept_where_every_file_is_accepted() {
    let data = sample_report();
    let mut c = config(IndexSize::Full);
    c.accept_file = FileFilterPolicy::AcceptAll;
    c.index_filename_converter = vec![];
    let index = TestIndex::index(Timestamp { nanos: 5 }, info(), &data, &c);
    assert_eq!(
        index.files,
        vec![
            "/work/src/lib.rs".to_string(),
            "/home/u/.cargo/registry/src/x/serde/src/lib.rs".to_string(),
            "/work/src/arith.rs".to_string(),
        ]
    );
    assert_eq!(
        quads(&index),
        vec![
            [2, 1, 2, 20, 1, 0],
            [10, 1, 11, 2, 3, 1],
            [1, 1, 3, 2, 4, 2],
            [2, 1, 2, 20, 2, 0]
        ]
    );
}

#[test]
fn binary_path_is_blanked_on_request_only() {
    let data = sample_report();
    let scrubbed = TestIndex::index(Timestamp { nanos: 5 }, info(), &data, &config(IndexSize::Tiny));
    assert_eq!(scrubbed.test_info.test_binary, "");
    assert_eq!(scrubbed.test_info.test_name, "test_add");
    assert_eq!(scrubbed.test_info.extra, "{\"pkg_name\":\"sample\"}");
    let mut c = config(IndexSize::Tiny);
    c.remove_bin_path = false;
    let kept = TestIndex::index(Timestamp { nanos: 5 }, info(), &data, &c);
    assert_eq!(kept.test_info.test_binary, "/work/target/debug/deps/tests-0123");
}

#[test]
fn compiling_twice_gives_the_same_files_and_regions() {
    let data = sample_report();
    let a = TestIndex::index(Timestamp { nanos: 1 }, info(), &data, &config(IndexSize::Full));
    let b = TestIndex::index(Timestamp { nanos: 2 }, info(), &data, &config(IndexSize::Full));
    assert_eq!(a.files, b.files);
    assert_eq!(quads(&a), quads(&b));
}

#[test]
fn empty_report_gives_empty_index() {
    let data = CoverageData { data: vec![], kind: String::new(), version: String::new() };
    let index = TestIndex::index(Timestamp { nanos: 1 }, info(), &data, &config(IndexSize::Full));
    assert!(index.files.is_empty());
    assert!(index.regions.is_empty());
    assert!(index.is_well_formed());
}

#[test]
fn malformed_reports_and_indexes_are_told_apart() {
    let bad = report(vec![function("f", &["a.rs"], vec![region(1, 1, 1, 2, 1, 1)])]);
    assert!(!bad.is_well_formed());
    assert!(!bad.data[0].is_well_formed());
    assert!(!bad.data[0].functions[0].is_well_formed());
    let index = TestIndex {
        regions: vec![IndexRegion::from(IndexRegionSerDe([1, 1, 1, 2, 1, 3]))],
        files: vec!["a.rs".to_string()],
        test_run: Timestamp { nanos: 0 },
        test_info: info(),
    };
    assert!(!index.is_well_formed());
}

#[test]
fn function_names_are_demangled() {
    assert_eq!(function("_ZN4testE", &[], vec![]).name, "test");
    assert_eq!(function("_ZN3foo3barE", &[], vec![]).name, "foo::bar");
    assert_eq!(function("foo", &[], vec![]).name, "foo");
    let f = function("_ZN3foo3barE", &["a.rs"], vec![region(1, 2, 3, 4, 5, 0)]);
    assert_eq!(f.count, 1);
    assert_eq!(f.filenames, vec!["a.rs".to_string()]);
    assert_eq!(f.regions.len(), 1);
}

#[test]
fn wire_forms_are_read_in_field_order() {
    let r = Region::from(CoverageFunctionRegionSerDe([1, 2, 3, 4, 5, 6, 7, 8]));
    assert_eq!(
        (r.l1, r.c1, r.l2, r.c2, r.execution_count, r.file_id, r.expanded_file_id, r.region_kind),
        (1, 2, 3, 4, 5, 6, 7, 8)
    );
    assert_eq!(CoverageFunctionRegionSerDe::from(r).0, [1, 2, 3, 4, 5, 6, 7, 8]);
    let b = CoverageBranch::from(CoverageBranchSerDe([1, 2, 3, 4, 5, 6, 7, 8, 9]));
    assert_eq!(
        (b.l1, b.l2, b.c1, b.c2, b.execution_count, b.false_execution_count),
        (1, 2, 3, 4, 5, 6)
    );
    assert_eq!((b.file_id, b.expanded_file_id, b.region_kind), (7, 8, 9));
    assert_eq!(CoverageBranchSerDe::from(b).0, [1, 2, 3, 4, 5, 6, 7, 8, 9]);
    let s = CoverageFileSegment::from(CoverageFileSegmentSerDe(1, 2, 3, true, false, true));
    assert_eq!((s.line, s.col, s.count), (1, 2, 3));
    assert_eq!((s.has_count, s.is_region_entry, s.is_gap_region), (true, false, true));
    let back = CoverageFileSegmentSerDe::from(s);
    assert_eq!((back.0, back.1, back.2, back.3, back.4, back.5), (1, 2, 3, true, false, true));
    let i = IndexRegion::from(IndexRegionSerDe([9, 8, 7, 6, 5, 4]));
    assert_eq!((i.l1, i.c1, i.l2, i.c2, i.count, i.file_id), (9, 8, 7, 6, 5, 4));
    assert_eq!(IndexRegionSerDe::from(i).0, [9, 8, 7, 6, 5, 4]);
}

#[test]
fn registry_files_are_recognised_by_their_components() {
    assert!(file_is_from_cargo_registry(
        "/home/u/.cargo/registry/src/index.crates.io-6f17d22bba15001f/serde-1.0.0/src/lib.rs"
    ));
    assert!(!file_is_from_cargo_registry("/work/src/lib.rs"));
    assert!(!file_is_from_cargo_registry("/home/u/.cargo/bin/tool.rs"));
    assert!(!file_is_from_cargo_registry("/work/registry/src/lib.rs"));
    assert!(!file_is_from_cargo_registry("/work/.cargo-registry/lib.rs"));
    assert!(components_name_registry(&vec![
        "registry".to_string(),
        "x".to_string(),
        ".cargo".to_string()
    ]));
    assert!(!components_name_registry(&vec![".cargo".to_string()]));
    assert!(FileFilterPolicy::AcceptAll.accept_file("/home/u/.cargo/registry/a.rs"));
    assert!(!FileFilterPolicy::IgnoreRegistryPaths.accept_file("/home/u/.cargo/registry/a.rs"));
    assert!(FileFilterPolicy::IgnoreRegistryPaths.accept_file("/work/a.rs"));
    assert!(FileFilterPolicy::IgnoreRegistryPaths
        .accepts_components(&vec!["work".to_string(), "a.rs".to_string()]));
}

#[test]
fn paths_are_rewritten_step_by_step() {
    let relative = PathRewritePolicy::RelativeToRoot("/work".to_string());
    assert_eq!(relative.rewrite_file("/work/src/lib.rs"), "src/lib.rs");
    assert_eq!(relative.rewrite_file("/elsewhere/src/lib.rs"), "/elsewhere/src/lib.rs");
    assert_eq!(relative.rewrite_file("/workshop/src/lib.rs"), "/workshop/src/lib.rs");
    assert_eq!(PathRewritePolicy::Identity.rewrite_file("/work/src/lib.rs"), "/work/src/lib.rs");
    assert_eq!(
        PathRewritePolicy::PlatformSlashNormalize.rewrite_file("src/lib.rs"),
        "src/lib.rs"
    );
    assert_eq!(relative.apply("/work/a", Some("a".to_string())), "a");
    assert_eq!(relative.apply("/work/a", None), "/work/a");
    assert_eq!(PathRewritePolicy::Identity.apply("/work/a", Some("a".to_string())), "/work/a");
    let steps = vec![
        PathRewritePolicy::RelativeToRoot("/work".to_string()),
        PathRewritePolicy::RelativeToRoot("src".to_string()),
        PathRewritePolicy::PlatformSlashNormalize,
    ];
    assert_eq!(rewrite_by_all(&steps, "/work/src/lib.rs"), "lib.rs");
    assert_eq!(rewrite_by_all(&vec![], "/work/src/lib.rs"), "/work/src/lib.rs");
}

#[test]
fn index_paths_are_resolved_from_roots() {
    let remap = DiscoverIndexPathResolver::Remap {
        from: "/work/target/tmp/difftests".to_string(),
        to: "/work/index".to_string(),
    };
    assert_eq!(
        remap.resolve("/work/target/tmp/difftests/tests/test_add"),
        Some("/work/index/tests/test_add".to_string())
    );
    assert_eq!(remap.resolve("/other/tests/test_add"), None);
    let fixed = DiscoverIndexPathResolver::Custom { path: "/x/index.json".to_string() };
    assert_eq!(fixed.resolve("/anything"), Some("/x/index.json".to_string()));
}

#[test]
fn texts_are_found_by_their_first_position() {
    let list = vec!["a".to_string(), "b".to_string(), "a".to_string()];
    assert_eq!(find_text(&list, "a"), Some(0));
    assert_eq!(find_text(&list, "b"), Some(1));
    assert_eq!(find_text(&list, "c"), None);
}

#[test]
fn index_size_defaults_to_tiny() {
    assert_eq!(IndexSize::default(), IndexSize::Tiny);
}
