//! What a test hands on when it asks for its index to be compiled and its
//! profiling data to be cleaned up once it is over.

use vstd::prelude::*;
use crate::text::{clone_list, lemma_texts_push, texts};

verus! {

/// Where all files of an index are made relative to.
#[derive(Clone, Copy, Debug, PartialEq, Eq, Structural)]
pub enum FlattenFilesToTarget {
    /// The root of the repository. Files outside of it stay as they are.
    RepoRoot,
}

/// Where the index goes.
#[derive(Debug)]
pub enum IndexResolver {
    /// Below `index_root`, where the test's directory lies below
    /// `difftests_root`.
    FromRoots { index_root: String, difftests_root: String },
    /// To `index_path`.
    Path { index_path: String },
}

/// Where the index goes, as a plain value.
pub enum IndexResolverView {
    /// Below `index_root`, where the test's directory lies below
    /// `difftests_root`.
    FromRoots { index_root: Seq<char>, difftests_root: Seq<char> },
    /// To `index_path`.
    Path { index_path: Seq<char> },
}

impl View for IndexResolver {
    type V = IndexResolverView;

    open spec fn view(&self) -> IndexResolverView {
        match *self {
            IndexResolver::FromRoots { index_root, difftests_root } => IndexResolverView::FromRoots {
                index_root: index_root@,
                difftests_root: difftests_root@,
            },
            IndexResolver::Path { index_path } => IndexResolverView::Path {
                index_path: index_path@,
            },
        }
    }
}

/// The settings under construction, as a plain value.
pub struct ConfigView {
    /// The directory of the test.
    pub difftests_dir: Seq<char>,
    /// Where the index goes, once that is said.
    pub index_resolver: Option<IndexResolverView>,
    /// Binaries besides the test's own whose coverage takes part.
    pub other_bins: Seq<Seq<char>>,
    /// Where the files of the index are made relative to, if anywhere.
    pub flatten_files_to: Option<FlattenFilesToTarget>,
    /// Whether the path of the binary is left out of the index.
    pub remove_bin_path: bool,
    /// Whether the index keeps the regions.
    pub full_index: bool,
    /// Whether backslashes in paths are replaced by slashes, where the
    /// platform writes paths with backslashes.
    pub path_slash_replace: bool,
}

/// The settings for compiling an index and cleaning up.
#[derive(Debug)]
pub struct CompileIndexAndCleanConfig {
    difftests_dir: String,
    index_resolver: IndexResolver,
    other_bins: Vec<String>,
    flatten_files_to: Option<FlattenFilesToTarget>,
    remove_bin_path: bool,
    full_index: bool,
    path_slash_replace: bool,
}

/// The settings for compiling an index and cleaning up, while they are made.
#[derive(Debug)]
pub struct CompileIndexAndCleanConfigBuilder {
    difftests_dir: String,
    index_resolver: Option<IndexResolver>,
    other_bins: Vec<String>,
    flatten_files_to: Option<FlattenFilesToTarget>,
    remove_bin_path: bool,
    full_index: bool,
    path_slash_replace: bool,
}

/// The view of an optional resolver.
pub open spec fn resolver_view(r: Option<IndexResolver>) -> Option<IndexResolverView> {
    match r {
        Some(r) => Some(r@),
        None => None,
    }
}

impl View for CompileIndexAndCleanConfigBuilder {
    type V = ConfigView;

    closed spec fn view(&self) -> ConfigView {
        ConfigView {
            difftests_dir: self.difftests_dir@,
            index_resolver: resolver_view(self.index_resolver),
            other_bins: texts(self.other_bins@),
            flatten_files_to: self.flatten_files_to,
            remove_bin_path: self.remove_bin_path,
            full_index: self.full_index,
            path_slash_replace: self.path_slash_replace,
        }
    }
}

impl View for CompileIndexAndCleanConfig {
    type V = ConfigView;

    closed spec fn view(&self) -> ConfigView {
        ConfigView {
            difftests_dir: self.difftests_dir@,
            index_resolver: Some(self.index_resolver@),
            other_bins: texts(self.other_bins@),
            flatten_files_to: self.flatten_files_to,
            remove_bin_path: self.remove_bin_path,
            full_index: self.full_index,
            path_slash_replace: self.path_slash_replace,
        }
    }
}

impl CompileIndexAndCleanConfigBuilder {
    /// Settings for the test directory `difftests_dir`, with nothing said yet
    /// of where the index goes: no other binaries, no flattening, the binary's
    /// path removed, a tiny index, slashes replaced.
    pub fn new(difftests_dir: String) -> (r: Self)
        ensures
            r@ == (ConfigView {
                difftests_dir: difftests_dir@,
                index_resolver: None,
                other_bins: Seq::empty(),
                flatten_files_to: None,
                remove_bin_path: true,
                full_index: false,
                path_slash_replace: true,
            }),
    {
        let r = CompileIndexAndCleanConfigBuilder {
            difftests_dir,
            index_resolver: None,
            other_bins: Vec::new(),
            flatten_files_to: None,
            remove_bin_path: true,
            full_index: false,
            path_slash_replace: true,
        };
        assert(texts(r.other_bins@) =~= Seq::empty());
        r
    }

    /// Says that the index goes to `index_path`. Where the index goes is said
    /// once.
    pub fn index_path(self, index_path: String) -> (r: Self)
        requires
            self@.index_resolver.is_none(),
        ensures
            r@ == (ConfigView {
                index_resolver: Some(IndexResolverView::Path { index_path: index_path@ }),
                ..self@
            }),
    {
        let mut b = self;
        b.index_resolver = Some(IndexResolver::Path { index_path });
        b
    }

    /// Says that the index goes below `index_root`, where the test's directory
    /// lies below `difftests_root`. Where the index goes is said once.
    pub fn roots(self, index_root: String, difftests_root: String) -> (r: Self)
        requires
            self@.index_resolver.is_none(),
        ensures
            r@ == (ConfigView {
                index_resolver: Some(
                    IndexResolverView::FromRoots {
                        index_root: index_root@,
                        difftests_root: difftests_root@,
                    },
                ),
                ..self@
            }),
    {
        let mut b = self;
        b.index_resolver = Some(IndexResolver::FromRoots { index_root, difftests_root });
        b
    }

    /// Adds binaries whose coverage takes part, after those added before.
    pub fn other_bins(self, other_bins: Vec<String>) -> (r: Self)
        ensures
            r@ == (ConfigView { other_bins: self@.other_bins + texts(other_bins@), ..self@ }),
    {
        let mut b = self;
        let mut bins = b.other_bins;
        let ghost start = texts(bins@);
        let mut i: usize = 0;
        assert(texts(bins@) =~= start + texts(other_bins@).take(0));
        while i < other_bins.len()
            invariant
                i <= other_bins.len(),
                texts(bins@) == start + texts(other_bins@).take(i as int),
            decreases other_bins.len() - i,
        {
            proof {
                lemma_texts_push(bins@, other_bins@[i as int]);
            }
            bins.push(other_bins[i].clone());
            assert(texts(bins@) =~= start + texts(other_bins@).take(i + 1));
            i += 1;
        }
        assert(texts(other_bins@).take(other_bins@.len() as int) =~= texts(other_bins@));
        b.other_bins = bins;
        b
    }

    /// Says where the files of the index are made relative to, if anywhere.
    pub fn flatten_files_to(self, flatten_files_to: Option<FlattenFilesToTarget>) -> (r: Self)
        ensures
            r@ == (ConfigView { flatten_files_to, ..self@ }),
    {
        let mut b = self;
        b.flatten_files_to = flatten_files_to;
        b
    }

    /// Says whether the path of the binary is left out of the index.
    pub fn remove_bin_path(self, remove_bin_path: bool) -> (r: Self)
        ensures
            r@ == (ConfigView { remove_bin_path, ..self@ }),
    {
        let mut b = self;
        b.remove_bin_path = remove_bin_path;
        b
    }

    /// Says whether the index keeps the regions.
    pub fn full_index(self, full_index: bool) -> (r: Self)
        ensures
            r@ == (ConfigView { full_index, ..self@ }),
    {
        let mut b = self;
        b.full_index = full_index;
        b
    }

    /// Says whether backslashes in paths are replaced by slashes. This counts
    /// only where the platform writes paths with backslashes.
    pub fn path_slash_replace(self, path_slash_replace: bool) -> (r: Self)
        ensures
            r@ == (ConfigView { path_slash_replace, ..self@ }),
    {
        let mut b = self;
        b.path_slash_replace = path_slash_replace;
        b
    }

    /// The settings as made. Where the index goes has to be said by then.
    pub fn build(self) -> (r: CompileIndexAndCleanConfig)
        requires
            self@.index_resolver.is_some(),
        ensures
            r@ == self@,
    {
        CompileIndexAndCleanConfig {
            difftests_dir: self.difftests_dir,
            index_resolver: self.index_resolver.unwrap(),
            other_bins: self.other_bins,
            flatten_files_to: self.flatten_files_to,
            remove_bin_path: self.remove_bin_path,
            full_index: self.full_index,
            path_slash_replace: self.path_slash_replace,
        }
    }

    /// Whether it was said where the index goes.
    pub fn has_index_resolver(&self) -> (r: bool)
        ensures
            r == self@.index_resolver.is_some(),
    {
        self.index_resolver.is_some()
    }
}

/// The arguments that say where the index goes.
pub open spec fn resolver_args(r: IndexResolverView) -> Seq<Seq<char>> {
    match r {
        IndexResolverView::FromRoots { index_root, difftests_root } => seq![
            "--index-root"@,
            index_root,
            "--root"@,
            difftests_root,
            "--output"@,
            "resolve"@,
        ],
        IndexResolverView::Path { index_path } => seq!["--output"@, index_path],
    }
}

/// The arguments that name the other binaries: `--bin` before each.
pub open spec fn bin_args(bins: Seq<Seq<char>>) -> Seq<Seq<char>>
    decreases bins.len(),
{
    if bins.len() == 0 {
        Seq::empty()
    } else {
        bin_args(bins.drop_last()) + seq!["--bin"@, bins.last()]
    }
}

/// The arguments of the command that compiles the index and cleans up, after
/// the name of the program. `on_windows` says whether the platform writes
/// paths with backslashes: only there does the command know of replacing them.
pub open spec fn command_args_of(c: ConfigView, on_windows: bool) -> Seq<Seq<char>> {
    seq![
        "difftests"@,
        "low-level"@,
        "test-client-compile-test-index-and-clean"@,
        "--dir"@,
        c.difftests_dir,
    ] + resolver_args(c.index_resolver.unwrap()) + (if c.flatten_files_to.is_some() {
        seq!["--flatten-files-to=repo-root"@]
    } else {
        Seq::empty()
    }) + (if !c.remove_bin_path {
        seq!["--no-remove-bin-path"@]
    } else {
        Seq::empty()
    }) + (if c.full_index {
        seq!["--full-index"@]
    } else {
        Seq::empty()
    }) + (if on_windows && !c.path_slash_replace {
        seq!["--no-path-slash-replace"@]
    } else {
        Seq::empty()
    }) + bin_args(c.other_bins)
}

/// Adds the string `s` to the arguments.
fn push_arg(args: &mut Vec<String>, s: &str)
    ensures
        texts(final(args)@) == texts(old(args)@).push(s@),
{
    let owned = s.to_owned();
    proof {
        lemma_texts_push(args@, owned);
    }
    args.push(owned);
}

impl CompileIndexAndCleanConfig {
    /// The arguments of the command that compiles the index and cleans up,
    /// after the name of the program.
    pub fn command_args(&self, on_windows: bool) -> (r: Vec<String>)
        ensures
            texts(r@) == command_args_of(self@, on_windows),
    {
        let mut args: Vec<String> = Vec::new();
        assert(texts(args@) =~= Seq::empty());
        push_arg(&mut args, "difftests");
        push_arg(&mut args, "low-level");
        push_arg(&mut args, "test-client-compile-test-index-and-clean");
        push_arg(&mut args, "--dir");
        push_arg(&mut args, self.difftests_dir.as_str());
        let ghost head = texts(args@);
        assert(head =~= seq![
            "difftests"@,
            "low-level"@,
            "test-client-compile-test-index-and-clean"@,
            "--dir"@,
            self.difftests_dir@,
        ]);
        match &self.index_resolver {
            IndexResolver::FromRoots { index_root, difftests_root } => {
                push_arg(&mut args, "--index-root");
                push_arg(&mut args, index_root.as_str());
                push_arg(&mut args, "--root");
                push_arg(&mut args, difftests_root.as_str());
                push_arg(&mut args, "--output");
                push_arg(&mut args, "resolve");
            },
            IndexResolver::Path { index_path } => {
                push_arg(&mut args, "--output");
                push_arg(&mut args, index_path.as_str());
            },
        }
        assert(texts(args@) =~= head + resolver_args(self.index_resolver@));
        let ghost a1 = texts(args@);
        if self.flatten_files_to.is_some() {
            push_arg(&mut args, "--flatten-files-to=repo-root");
        }
        let ghost a2 = texts(args@);
        assert(a2 =~= a1 + (if self.flatten_files_to.is_some() {
            seq!["--flatten-files-to=repo-root"@]
        } else {
            Seq::empty()
        }));
        if !self.remove_bin_path {
            push_arg(&mut args, "--no-remove-bin-path");
        }
        let ghost a3 = texts(args@);
        assert(a3 =~= a2 + (if !self.remove_bin_path {
            seq!["--no-remove-bin-path"@]
        } else {
            Seq::empty()
        }));
        if self.full_index {
            push_arg(&mut args, "--full-index");
        }
        let ghost a4 = texts(args@);
        assert(a4 =~= a3 + (if self.full_index {
            seq!["--full-index"@]
        } else {
            Seq::empty()
        }));
        if on_windows && !self.path_slash_replace {
            push_arg(&mut args, "--no-path-slash-replace");
        }
        let ghost a5 = texts(args@);
        assert(a5 =~= a4 + (if on_windows && !self.path_slash_replace {
            seq!["--no-path-slash-replace"@]
        } else {
            Seq::empty()
        }));
        let mut i: usize = 0;
        assert(texts(self.other_bins@).take(0) =~= Seq::empty());
        assert(a5 =~= a5 + bin_args(texts(self.other_bins@).take(0)));
        while i < self.other_bins.len()
            invariant
                i <= self.other_bins.len(),
                texts(args@) == a5 + bin_args(texts(self.other_bins@).take(i as int)),
            decreases self.other_bins.len() - i,
        {
            let ghost before = texts(args@);
            push_arg(&mut args, "--bin");
            push_arg(&mut args, self.other_bins[i].as_str());
            proof {
                let bins = texts(self.other_bins@);
                assert(bins.take(i + 1).drop_last() =~= bins.take(i as int));
                assert(bins.take(i + 1).last() == self.other_bins@[i as int]@);
                assert(texts(args@) =~= before + seq!["--bin"@, self.other_bins@[i as int]@]);
                assert(texts(args@) =~= a5 + bin_args(bins.take(i + 1)));
            }
            i += 1;
        }
        assert(texts(self.other_bins@).take(self.other_bins@.len() as int) =~= texts(
            self.other_bins@,
        ));
        args
    }

    /// The binaries besides the test's own whose coverage takes part.
    pub fn other_bins(&self) -> (r: Vec<String>)
        ensures
            texts(r@) == self@.other_bins,
    {
        clone_list(&self.other_bins)
    }
}

/// Settings that are kept until the test is over, when the index is compiled
/// and the data cleaned up.
#[derive(Debug)]
pub struct RunOnDrop(pub CompileIndexAndCleanConfig);

impl RunOnDrop {
    /// Keeps the settings.
    pub fn new(config: CompileIndexAndCleanConfig) -> (r: Self)
        ensures
            r.0 == config,
    {
        RunOnDrop(config)
    }
}

} // verus!
