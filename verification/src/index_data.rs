//! The index of a test run: the files it touched and, where they are kept, the
//! regions it ran, compiled from a coverage report.

use vstd::prelude::*;
use vstd::std_specs::convert::{FromSpec, FromSpecImpl};
use crate::analysis_data::{CoverageData, CoverageFunction, CoverageMapping, Region};
use crate::difftest::{TestInfo, Timestamp};
use crate::paths::{
    components_name_registry, components_of, names_registry, path_components, path_with_slashes,
    path_without_prefix, strip_prefix, text_of, to_slash,
};
use crate::text::{lemma_texts_push, same_text, texts};

verus! {

/// A region of an index as it is written down: six numbers in a row.
#[derive(Clone, Copy, Debug)]
pub struct IndexRegionSerDe(pub [usize; 6]);

/// A region that a test ran.
#[derive(Clone, Copy, Debug)]
pub struct IndexRegion {
    /// The line the region starts on.
    pub l1: usize,
    /// The column the region starts at.
    pub c1: usize,
    /// The line the region ends on.
    pub l2: usize,
    /// The column the region ends at.
    pub c2: usize,
    /// How often the region ran.
    pub count: usize,
    /// Which file of the index the region lies in.
    pub file_id: usize,
}

impl From<IndexRegionSerDe> for IndexRegion {
    fn from(v: IndexRegionSerDe) -> (r: Self) {
        IndexRegion { l1: v.0[0], c1: v.0[1], l2: v.0[2], c2: v.0[3], count: v.0[4], file_id: v.0[5] }
    }
}

impl FromSpecImpl<IndexRegionSerDe> for IndexRegion {
    open spec fn obeys_from_spec() -> bool {
        true
    }

    open spec fn from_spec(v: IndexRegionSerDe) -> Self {
        IndexRegion { l1: v.0[0], c1: v.0[1], l2: v.0[2], c2: v.0[3], count: v.0[4], file_id: v.0[5] }
    }
}

impl From<IndexRegion> for IndexRegionSerDe {
    fn from(r: IndexRegion) -> (v: Self) {
        IndexRegionSerDe([r.l1, r.c1, r.l2, r.c2, r.count, r.file_id])
    }
}

impl FromSpecImpl<IndexRegion> for IndexRegionSerDe {
    open spec fn obeys_from_spec() -> bool {
        true
    }

    open spec fn from_spec(r: IndexRegion) -> Self {
        IndexRegionSerDe([r.l1, r.c1, r.l2, r.c2, r.count, r.file_id])
    }
}

/// Writing an index region down and reading it back gives the region again.
pub proof fn law_index_region_round_trip(r: IndexRegion)
    ensures
        <IndexRegion as FromSpec<IndexRegionSerDe>>::from_spec(
            <IndexRegionSerDe as FromSpec<IndexRegion>>::from_spec(r),
        ) == r,
{
}

/// How much of the coverage an index keeps.
#[derive(Clone, Copy, Debug, PartialEq, Eq, Structural)]
pub enum IndexSize {
    /// The files only. Such an index cannot be matched against the hunks of a
    /// diff, which needs the regions.
    Tiny,
    /// The files and the regions.
    Full,
}

impl Default for IndexSize {
    fn default() -> (r: Self)
        ensures
            r == IndexSize::Tiny,
    {
        IndexSize::Tiny
    }
}

/// Which files an index takes in.
#[derive(Clone, Copy, Debug, PartialEq, Eq, Structural)]
pub enum FileFilterPolicy {
    /// Every file.
    AcceptAll,
    /// Every file but those of the package registry's cache.
    IgnoreRegistryPaths,
}

impl FileFilterPolicy {
    /// Whether the policy takes in the file at `path`.
    pub open spec fn accepts(self, path: Seq<char>) -> bool {
        match self {
            FileFilterPolicy::AcceptAll => true,
            FileFilterPolicy::IgnoreRegistryPaths => !names_registry(path_components(path)),
        }
    }

    /// Whether the policy takes in a file whose path has these components.
    pub fn accepts_components(&self, components: &Vec<String>) -> (r: bool)
        ensures
            r == match *self {
                FileFilterPolicy::AcceptAll => true,
                FileFilterPolicy::IgnoreRegistryPaths => !names_registry(texts(components@)),
            },
    {
        match self {
            FileFilterPolicy::AcceptAll => true,
            FileFilterPolicy::IgnoreRegistryPaths => !components_name_registry(components),
        }
    }

    /// Whether the policy takes in the file at `path`.
    pub fn accept_file(&self, path: &str) -> (r: bool)
        ensures
            r == self.accepts(path@),
    {
        let components = components_of(path);
        self.accepts_components(&components)
    }
}

/// One step in writing a file's path the way an index holds it.
#[derive(Clone, Debug)]
pub enum PathRewritePolicy {
    /// The path as it is.
    Identity,
    /// The path relative to the given root; as it is where it does not lie
    /// under that root.
    RelativeToRoot(String),
    /// The path with `/` between its components; as it is where it cannot be
    /// written so.
    PlatformSlashNormalize,
}

impl PathRewritePolicy {
    /// What the step makes of `path`, where `answer` is what the path library
    /// made of it: the path without the root, or the path with `/`.
    pub open spec fn applied(self, path: Seq<char>, answer: Option<Seq<char>>) -> Seq<char> {
        match self {
            PathRewritePolicy::Identity => path,
            _ => match answer {
                Some(p) => p,
                None => path,
            },
        }
    }

    /// What the path library makes of `path` for this step.
    pub open spec fn answer(self, path: Seq<char>) -> Option<Seq<char>> {
        match self {
            PathRewritePolicy::Identity => None,
            PathRewritePolicy::RelativeToRoot(root) => path_without_prefix(path, root@),
            PathRewritePolicy::PlatformSlashNormalize => path_with_slashes(path),
        }
    }

    /// What the step makes of `path`.
    pub open spec fn rewritten(self, path: Seq<char>) -> Seq<char> {
        self.applied(path, self.answer(path))
    }

    /// What the step makes of `path`, from the path library's answer.
    pub fn apply(&self, path: &str, answer: Option<String>) -> (r: String)
        ensures
            r@ == self.applied(path@, text_of(answer)),
    {
        match self {
            PathRewritePolicy::Identity => path.to_owned(),
            _ => match answer {
                Some(p) => p,
                None => path.to_owned(),
            },
        }
    }

    /// What the step makes of `path`.
    pub fn rewrite_file(&self, path: &str) -> (r: String)
        ensures
            r@ == self.rewritten(path@),
    {
        let answer = match self {
            PathRewritePolicy::Identity => None,
            PathRewritePolicy::RelativeToRoot(root) => strip_prefix(path, root.as_str()),
            PathRewritePolicy::PlatformSlashNormalize => to_slash(path),
        };
        self.apply(path, answer)
    }
}

/// What the steps `policies`, taken in order, make of `path`.
pub open spec fn rewritten_by_all(policies: Seq<PathRewritePolicy>, path: Seq<char>) -> Seq<char>
    decreases policies.len(),
{
    if policies.len() == 0 {
        path
    } else {
        policies.last().rewritten(rewritten_by_all(policies.drop_last(), path))
    }
}

/// What the steps `policies`, taken in order, make of `path`.
pub fn rewrite_by_all(policies: &Vec<PathRewritePolicy>, path: &str) -> (r: String)
    ensures
        r@ == rewritten_by_all(policies@, path@),
{
    let mut out = path.to_owned();
    let mut i: usize = 0;
    while i < policies.len()
        invariant
            i <= policies.len(),
            out@ == rewritten_by_all(policies@.take(i as int), path@),
        decreases policies.len() - i,
    {
        assert(policies@.take(i + 1).drop_last() =~= policies@.take(i as int));
        out = policies[i].rewrite_file(out.as_str());
        i += 1;
    }
    assert(policies@.take(policies@.len() as int) =~= policies@);
    out
}

/// How an index is compiled from a coverage report.
#[derive(Clone, Debug)]
pub struct IndexDataCompilerConfig {
    /// Whether the coverage is exported without the files of the package
    /// registry's cache.
    pub ignore_registry_files: bool,
    /// Whether the path of the test's binary is left out of the index, so that
    /// the index does not depend on the machine it was made on.
    pub remove_bin_path: bool,
    /// How a file's path is written into the index: the steps, in order.
    pub index_filename_converter: Vec<PathRewritePolicy>,
    /// Which files the index takes in.
    pub accept_file: FileFilterPolicy,
    /// How much of the coverage the index keeps.
    pub index_size: IndexSize,
}

/// A region that ran, with the file it lies in.
pub struct Touch {
    /// The path of the file, as the coverage report names it.
    pub file: Seq<char>,
    /// The region.
    pub region: Region,
}

/// The touches among the first `n` regions of `f`, in order: the regions that
/// ran and lie in a file that `policy` takes in.
pub open spec fn function_touches(f: CoverageFunction, policy: FileFilterPolicy, n: int) -> Seq<
    Touch,
>
    decreases n,
{
    if n <= 0 {
        Seq::empty()
    } else {
        let before = function_touches(f, policy, n - 1);
        let region = f.regions@[n - 1];
        let file = f.filenames@[region.file_id as int]@;
        if region.touched() && policy.accepts(file) {
            before.push(Touch { file, region })
        } else {
            before
        }
    }
}

/// The touches of the first `n` functions of `m`, in order.
pub open spec fn mapping_touches(m: CoverageMapping, policy: FileFilterPolicy, n: int) -> Seq<
    Touch,
>
    decreases n,
{
    if n <= 0 {
        Seq::empty()
    } else {
        let f = m.functions@[n - 1];
        mapping_touches(m, policy, n - 1) + function_touches(f, policy, f.regions@.len() as int)
    }
}

/// The touches of the first `n` mappings of `d`, in order.
pub open spec fn data_touches(d: CoverageData, policy: FileFilterPolicy, n: int) -> Seq<Touch>
    decreases n,
{
    if n <= 0 {
        Seq::empty()
    } else {
        let m = d.data@[n - 1];
        data_touches(d, policy, n - 1) + mapping_touches(m, policy, m.functions@.len() as int)
    }
}

/// Every touch of the report `d`, in the order of the report.
pub open spec fn touches(d: CoverageData, policy: FileFilterPolicy) -> Seq<Touch> {
    data_touches(d, policy, d.data@.len() as int)
}

/// The file of each touch.
pub open spec fn touched_files(t: Seq<Touch>) -> Seq<Seq<char>> {
    t.map_values(|x: Touch| x.file)
}

/// The members of `s`, each once, in the order in which they first occur.
pub open spec fn distinct(s: Seq<Seq<char>>) -> Seq<Seq<char>>
    decreases s.len(),
{
    if s.len() == 0 {
        Seq::empty()
    } else {
        let before = distinct(s.drop_last());
        if before.contains(s.last()) {
            before
        } else {
            before.push(s.last())
        }
    }
}

/// The files of an index compiled from the touches `t`: the distinct files
/// touched, in the order in which they were first touched, each written the way
/// `policies` say.
pub open spec fn index_files(t: Seq<Touch>, policies: Seq<PathRewritePolicy>) -> Seq<Seq<char>> {
    distinct(touched_files(t)).map_values(|f: Seq<char>| rewritten_by_all(policies, f))
}

/// The region that an index holds for the touch `x`, where the file of the
/// touch stands at position `file_id` of the index.
pub open spec fn region_entry(x: Touch, file_id: usize) -> IndexRegion {
    IndexRegion {
        l1: x.region.l1,
        c1: x.region.c1,
        l2: x.region.l2,
        c2: x.region.c2,
        count: x.region.execution_count,
        file_id,
    }
}

/// The region that an index holds for the touch `x`, where `files` are the
/// distinct files touched.
pub open spec fn index_region(x: Touch, files: Seq<Seq<char>>) -> IndexRegion {
    region_entry(x, files.index_of(x.file) as usize)
}

/// The regions of a full index compiled from the touches `t`: one for each
/// touch, in order, none left out for being there twice.
pub open spec fn index_regions(t: Seq<Touch>) -> Seq<IndexRegion> {
    Seq::new(t.len(), |k: int| index_region(t[k], distinct(touched_files(t))))
}

/// A member of `distinct(s)` is a member of `s`, and the other way round, and
/// none is there twice.
pub proof fn lemma_distinct(s: Seq<Seq<char>>)
    ensures
        distinct(s).no_duplicates(),
        forall|x: Seq<char>| #[trigger] distinct(s).contains(x) <==> s.contains(x),
        distinct(s).len() <= s.len(),
    decreases s.len(),
{
    if s.len() > 0 {
        let front = s.drop_last();
        let before = distinct(front);
        lemma_distinct(front);
        assert forall|x: Seq<char>| #[trigger] distinct(s).contains(x) <==> s.contains(x) by {
            assert(before.contains(x) <==> front.contains(x));
            if s.contains(x) {
                let i = choose|i: int| 0 <= i < s.len() && s[i] == x;
                if i < s.len() - 1 {
                    assert(front[i] == x);
                    assert(front.contains(x));
                    let j = choose|j: int| 0 <= j < before.len() && before[j] == x;
                    assert(distinct(s)[j] == x);
                } else {
                    if before.contains(x) {
                        let j = choose|j: int| 0 <= j < before.len() && before[j] == x;
                        assert(distinct(s)[j] == x);
                    } else {
                        assert(distinct(s)[before.len() as int] == x);
                    }
                }
            }
            if distinct(s).contains(x) {
                let j = choose|j: int| 0 <= j < distinct(s).len() && distinct(s)[j] == x;
                if j < before.len() {
                    assert(before[j] == x);
                    assert(before.contains(x));
                    assert(front.contains(x));
                    let i = choose|i: int| 0 <= i < front.len() && front[i] == x;
                    assert(s[i] == x);
                } else {
                    assert(s[s.len() - 1] == x);
                }
            }
        }
    }
}

/// In a sequence without duplicates a member stands at one position only.
pub proof fn lemma_index_of_unique(s: Seq<Seq<char>>, x: Seq<char>, i: int)
    requires
        s.no_duplicates(),
        0 <= i < s.len(),
        s[i] == x,
    ensures
        s.index_of(x) == i,
{
}

/// The position in `list` of the first string that holds the text of `s`.
pub fn find_text(list: &Vec<String>, s: &str) -> (r: Option<usize>)
    ensures
        match r {
            Some(i) => i < list@.len() && texts(list@)[i as int] == s@,
            None => !texts(list@).contains(s@),
        },
{
    let mut i: usize = 0;
    while i < list.len()
        invariant
            i <= list.len(),
            forall|k: int| 0 <= k < i ==> texts(list@)[k] != s@,
        decreases list.len() - i,
    {
        if same_text(list[i].as_str(), s) {
            assert(texts(list@)[i as int] == s@);
            return Some(i);
        }
        i += 1;
    }
    None
}

/// The index of a test run.
#[derive(Debug)]
pub struct TestIndex {
    /// The regions that ran, each naming its file by position in `files`.
    /// Empty in an index that keeps the files only.
    pub regions: Vec<IndexRegion>,
    /// The files that the test touched, each once.
    pub files: Vec<String>,
    /// When the test ran.
    pub test_run: Timestamp,
    /// What identifies the test.
    pub test_info: TestInfo,
}

impl TestIndex {
    /// Every region names a file of the index.
    pub open spec fn wf(self) -> bool {
        forall|k: int|
            0 <= k < self.regions@.len() ==> (#[trigger] self.regions@[k]).file_id
                < self.files@.len()
    }

    /// Whether the files and regions of this index are those that compiling
    /// the report `profdata` under `config` gives.
    pub open spec fn is_index_of(self, profdata: CoverageData, config: IndexDataCompilerConfig) -> bool {
        &&& texts(self.files@) == index_files(
            touches(profdata, config.accept_file),
            config.index_filename_converter@,
        )
        &&& self.regions@ == if config.index_size == IndexSize::Full {
            index_regions(touches(profdata, config.accept_file))
        } else {
            Seq::<IndexRegion>::empty()
        }
    }

    /// Whether every region names a file of the index.
    pub fn is_well_formed(&self) -> (r: bool)
        ensures
            r == self.wf(),
    {
        let mut i: usize = 0;
        while i < self.regions.len()
            invariant
                i <= self.regions.len(),
                forall|k: int|
                    0 <= k < i ==> (#[trigger] self.regions@[k]).file_id < self.files@.len(),
            decreases self.regions.len() - i,
        {
            if self.regions[i].file_id >= self.files.len() {
                return false;
            }
            i += 1;
        }
        true
    }

    /// Compiles the coverage report of a test run into its index.
    ///
    /// Every region that ran and lies in a file that the configuration takes in
    /// counts as a touch. The index holds each touched file once, in the order
    /// of first touch and written as the configuration says; a full index holds
    /// a region for every touch, a tiny one no region at all. The binary's path
    /// is blanked where the configuration asks for it.
    pub fn index(
        test_run: Timestamp,
        test_info: TestInfo,
        profdata: &CoverageData,
        config: &IndexDataCompilerConfig,
    ) -> (r: TestIndex)
        requires
            profdata.wf(),
        ensures
            r.wf(),
            r.test_run == test_run,
            r.test_info.test_name@ == test_info.test_name@,
            r.test_info.extra@ == test_info.extra@,
            r.test_info.test_binary@ == if config.remove_bin_path {
                Seq::<char>::empty()
            } else {
                test_info.test_binary@
            },
            r.is_index_of(*profdata, *config),
    {
        let mut test_info = test_info;
        if config.remove_bin_path {
            test_info.test_binary = String::new();
        }
        let policy = config.accept_file;
        let full = config.index_size == IndexSize::Full;
        let mut paths: Vec<String> = Vec::new();
        let mut files: Vec<String> = Vec::new();
        let mut regions: Vec<IndexRegion> = Vec::new();
        let ghost mut t: Seq<Touch> = Seq::empty();
        let ghost policies = config.index_filename_converter@;
        proof {
            assert(texts(paths@) =~= distinct(touched_files(t)));
            assert(texts(files@) =~= index_files(t, policies));
        }

        let mut mi: usize = 0;
        while mi < profdata.data.len()
            invariant
                profdata.wf(),
                mi <= profdata.data.len(),
                policy == config.accept_file,
                policies == config.index_filename_converter@,
                full == (config.index_size == IndexSize::Full),
                t == data_touches(*profdata, policy, mi as int),
                compiled(t, policies, full, paths@, files@, regions@),
            decreases profdata.data.len() - mi,
        {
            let mapping = &profdata.data[mi];
            let ghost at_mapping = t;
            let mut fi: usize = 0;
            while fi < mapping.functions.len()
                invariant
                    mapping.wf(),
                    fi <= mapping.functions.len(),
                    policy == config.accept_file,
                    policies == config.index_filename_converter@,
                    full == (config.index_size == IndexSize::Full),
                    t == at_mapping + mapping_touches(*mapping, policy, fi as int),
                    compiled(t, policies, full, paths@, files@, regions@),
                decreases mapping.functions.len() - fi,
            {
                let f = &mapping.functions[fi];
                let ghost at_function = t;
                let mut ri: usize = 0;
                while ri < f.regions.len()
                    invariant
                        f.wf(),
                        ri <= f.regions.len(),
                        policy == config.accept_file,
                        policies == config.index_filename_converter@,
                        full == (config.index_size == IndexSize::Full),
                        t == at_function + function_touches(*f, policy, ri as int),
                        compiled(t, policies, full, paths@, files@, regions@),
                    decreases f.regions.len() - ri,
                {
                    let region = f.regions[ri];
                    if region.execution_count > 0 {
                        let filename = &f.filenames[region.file_id];
                        if policy.accept_file(filename.as_str()) {
                            let ghost touch = Touch { file: filename@, region };
                            let ghost paths0 = paths@;
                            let ghost files0 = files@;
                            let ghost regions0 = regions@;
                            let file_id = match find_text(&paths, filename.as_str()) {
                                Some(id) => id,
                                None => {
                                    let id = files.len();
                                    proof {
                                        lemma_texts_push(paths@, *filename);
                                    }
                                    paths.push(filename.clone());
                                    let written = rewrite_by_all(
                                        &config.index_filename_converter,
                                        filename.as_str(),
                                    );
                                    proof {
                                        lemma_texts_push(files@, written);
                                    }
                                    files.push(written);
                                    id
                                },
                            };
                            if full {
                                regions.push(
                                    IndexRegion {
                                        l1: region.l1,
                                        c1: region.c1,
                                        l2: region.l2,
                                        c2: region.c2,
                                        count: region.execution_count,
                                        file_id,
                                    },
                                );
                            }
                            proof {
                                assert(texts(paths0).len() == paths0.len());
                                assert(texts(files0).len() == files0.len());
                                lemma_compiled_step(
                                    t,
                                    policies,
                                    full,
                                    paths0,
                                    files0,
                                    regions0,
                                    touch,
                                    paths@,
                                    files@,
                                    regions@,
                                    file_id,
                                );
                                t = t.push(touch);
                                assert(t =~= at_function + function_touches(*f, policy, ri + 1));
                            }
                        }
                    }
                    ri += 1;
                }
                proof {
                    assert(t =~= at_mapping + mapping_touches(*mapping, policy, fi + 1));
                }
                fi += 1;
            }
            proof {
                assert(t =~= data_touches(*profdata, policy, mi + 1));
            }
            mi += 1;
        }
        proof {
            lemma_compiled_done(t, policies, full, paths@, files@, regions@);
        }
        TestIndex { regions, files, test_run, test_info }
    }
}

/// Idempotence. Two indexes compiled from one report under one configuration
/// hold the same files and the same regions; they may differ in nothing but
/// what was handed in beside the report.
pub proof fn law_index_is_determined(
    a: TestIndex,
    b: TestIndex,
    profdata: CoverageData,
    config: IndexDataCompilerConfig,
)
    requires
        a.is_index_of(profdata, config),
        b.is_index_of(profdata, config),
    ensures
        texts(a.files@) == texts(b.files@),
        a.regions@ == b.regions@,
{
}

/// A report without a touch compiles to an index without files and regions.
pub proof fn law_nothing_touched_is_empty(
    a: TestIndex,
    profdata: CoverageData,
    config: IndexDataCompilerConfig,
)
    requires
        a.is_index_of(profdata, config),
        touches(profdata, config.accept_file).len() == 0,
    ensures
        a.files@.len() == 0,
        a.regions@.len() == 0,
{
    assert(touched_files(touches(profdata, config.accept_file)) =~= Seq::<Seq<char>>::empty());
    assert(texts(a.files@).len() == a.files@.len());
}

/// The files of an index hold no path of the report twice, and a full index holds
/// as many regions as there were touches, each naming the file it was touched
/// in.
pub proof fn law_index_files_and_regions(t: Seq<Touch>)
    requires
        t.len() <= usize::MAX,
    ensures
        distinct(touched_files(t)).no_duplicates(),
        index_regions(t).len() == t.len(),
        forall|k: int|
            0 <= k < t.len() ==> {
                &&& 0 <= (#[trigger] index_regions(t)[k]).file_id < distinct(touched_files(t)).len()
                &&& distinct(touched_files(t))[index_regions(t)[k].file_id as int] == t[k].file
            },
{
    let files = distinct(touched_files(t));
    lemma_distinct(touched_files(t));
    assert forall|k: int| 0 <= k < t.len() implies {
        &&& 0 <= (#[trigger] index_regions(t)[k]).file_id < files.len()
        &&& files[index_regions(t)[k].file_id as int] == t[k].file
    } by {
        assert(touched_files(t)[k] == t[k].file);
        assert(touched_files(t).contains(t[k].file));
        assert(files.contains(t[k].file));
        let i = files.index_of(t[k].file);
        assert(0 <= i < files.len() && files[i] == t[k].file);
        assert(files.len() <= t.len());
    }
}

/// What holds of the lists under construction once the touches `t` are taken in.
pub open spec fn compiled(
    t: Seq<Touch>,
    policies: Seq<PathRewritePolicy>,
    full: bool,
    paths: Seq<String>,
    files: Seq<String>,
    regions: Seq<IndexRegion>,
) -> bool {
    &&& texts(paths) == distinct(touched_files(t))
    &&& texts(files) == index_files(t, policies)
    &&& if full {
        &&& regions.len() == t.len()
        &&& forall|k: int|
            0 <= k < t.len() ==> {
                &&& (#[trigger] regions[k]).file_id < paths.len()
                &&& texts(paths)[regions[k].file_id as int] == t[k].file
                &&& regions[k] == region_entry(t[k], regions[k].file_id)
            }
    } else {
        regions.len() == 0
    }
}

/// Taking in one more touch keeps the lists as they should be: the file is
/// added where it is new, the region where regions are kept.
proof fn lemma_compiled_step(
    t: Seq<Touch>,
    policies: Seq<PathRewritePolicy>,
    full: bool,
    paths: Seq<String>,
    files: Seq<String>,
    regions: Seq<IndexRegion>,
    touch: Touch,
    paths2: Seq<String>,
    files2: Seq<String>,
    regions2: Seq<IndexRegion>,
    file_id: usize,
)
    requires
        compiled(t, policies, full, paths, files, regions),
        texts(paths).contains(touch.file) ==> paths2 == paths && files2 == files,
        !texts(paths).contains(touch.file) ==> {
            &&& texts(paths2) == texts(paths).push(touch.file)
            &&& texts(files2) == texts(files).push(rewritten_by_all(policies, touch.file))
        },
        file_id < paths2.len(),
        texts(paths2)[file_id as int] == touch.file,
        regions2 == if full {
            regions.push(region_entry(touch, file_id))
        } else {
            regions
        },
    ensures
        compiled(t.push(touch), policies, full, paths2, files2, regions2),
{
    let t2 = t.push(touch);
    let s = touched_files(t2);
    assert(s =~= touched_files(t).push(touch.file));
    assert(s.drop_last() =~= touched_files(t));
    assert(texts(paths).len() == paths.len());
    assert(texts(paths2).len() == paths2.len());
    if !texts(paths).contains(touch.file) {
        assert(index_files(t2, policies) =~= texts(files).push(
            rewritten_by_all(policies, touch.file),
        ));
    }
    if full {
        assert forall|k: int| 0 <= k < t2.len() implies {
            &&& (#[trigger] regions2[k]).file_id < paths2.len()
            &&& texts(paths2)[regions2[k].file_id as int] == t2[k].file
            &&& regions2[k] == region_entry(t2[k], regions2[k].file_id)
        } by {
            if k < t.len() {
                assert(regions2[k] == regions[k]);
                assert(t2[k] == t[k]);
                assert(texts(paths)[regions[k].file_id as int] == t[k].file);
            }
        }
    }
}

/// Once every touch is taken in, the lists are the index.
proof fn lemma_compiled_done(
    t: Seq<Touch>,
    policies: Seq<PathRewritePolicy>,
    full: bool,
    paths: Seq<String>,
    files: Seq<String>,
    regions: Seq<IndexRegion>,
)
    requires
        compiled(t, policies, full, paths, files, regions),
    ensures
        paths.len() == files.len(),
        full ==> regions == index_regions(t),
        !full ==> regions == Seq::<IndexRegion>::empty(),
        forall|k: int| 0 <= k < regions.len() ==> (#[trigger] regions[k]).file_id < files.len(),
{
    assert(texts(paths).len() == paths.len());
    assert(texts(files).len() == files.len());
    if full {
        lemma_distinct(touched_files(t));
        assert forall|k: int| 0 <= k < t.len() implies regions[k] == index_regions(t)[k] by {
            lemma_index_of_unique(
                distinct(touched_files(t)),
                t[k].file,
                regions[k].file_id as int,
            );
        }
        assert(regions =~= index_regions(t));
    } else {
        assert(regions =~= Seq::<IndexRegion>::empty());
    }
}

} // verus!
