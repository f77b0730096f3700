//! Groups: several test runs that share one instrumented binary and count as
//! one unit of coverage, with one index and one time of first run.

use vstd::prelude::*;
use crate::analysis::{AnalysisContext, FileMtime};
use crate::analysis_data::CoverageData;
use crate::difftest::{DifftestsError, TestInfo, Timestamp};
use crate::index_data::{IndexDataCompilerConfig, TestIndex};
use crate::paths::{
    extension_of, file_name_of, join, path_extension, path_file_name, path_joined, text_of,
};
use crate::text::{clone_list, lemma_texts_push, same_text, texts};

verus! {

/// The name of the file that holds the version the data was written by.
pub const CARGO_DIFFTESTS_VERSION_FILENAME: &'static str = "cargo_difftests_version";

/// The name of the file that describes a group.
pub const CARGO_DIFFTESTS_GROUP_SELF_JSON_FILENAME: &'static str = "self.json";

/// The name of the profile that the group's own process writes.
pub const CARGO_DIFFTESTS_SELF_PROFILE_FILENAME: &'static str = "self.profraw";

/// The name of the marker written when the first test of a group starts.
pub const CARGO_DIFFTESTS_GROUP_FIRST_TEST_RUN: &'static str = "first_test_run";

/// The name of the merged profile of a group.
pub const GROUP_PROFDATA_FILENAME: &'static str = "group.profdata";

/// The name of the marker left where a group was cleaned.
pub const CLEANED_FILENAME: &'static str = "group_cleaned";

/// One of the test runs that make up a group.
#[derive(Debug)]
pub struct GroupDifftest {
    /// The directory of the run.
    pub dir: String,
    /// The profile that the run's own process wrote.
    pub self_profraw: String,
    /// The profiles that its child processes wrote.
    pub other_profraws: Vec<String>,
    /// The description of the run.
    pub self_json: String,
    /// The binary that the run was made with.
    pub bin_path: String,
    /// When the run first took place.
    pub first_run: Timestamp,
}

/// An entry of a group's directory.
#[derive(Debug)]
pub struct DirEntry {
    /// The path of the entry.
    pub path: String,
    /// Whether the entry is a file.
    pub is_file: bool,
    /// When the entry was last modified.
    pub mtime: Timestamp,
}

/// What was found in a group's directory.
#[derive(Debug)]
pub struct GroupDirListing {
    /// When the marker of the first test run was last modified.
    pub first_test_run: Timestamp,
    /// Whether the group's description is there.
    pub self_json_exists: bool,
    /// Whether the profile of the group's own process is there.
    pub self_profraw_exists: bool,
    /// What the version file holds, or `None` where it is missing.
    pub version: Option<String>,
    /// The entries of the directory, in the order in which they were read.
    pub entries: Vec<DirEntry>,
}

/// What an entry of a group's directory is to the group.
#[derive(Clone, Copy, Debug, PartialEq, Eq, Structural)]
pub enum EntryKind {
    /// A profile written by a child process.
    OtherProfraw,
    /// A merged profile.
    Profdata,
    /// The marker of a cleaned group.
    CleanedMarker,
    /// Nothing that the group reads.
    Other,
}

/// What an entry is to the group, from whether it is a file, its extension and
/// its file name.
pub open spec fn entry_kind(
    is_file: bool,
    extension: Option<Seq<char>>,
    name: Option<Seq<char>>,
) -> EntryKind {
    if !is_file {
        EntryKind::Other
    } else if extension == Some("profraw"@) && name != Some(
        CARGO_DIFFTESTS_SELF_PROFILE_FILENAME@,
    ) {
        EntryKind::OtherProfraw
    } else if extension == Some("profdata"@) {
        EntryKind::Profdata
    } else if name == Some(CLEANED_FILENAME@) {
        EntryKind::CleanedMarker
    } else {
        EntryKind::Other
    }
}

/// What the entry `e` is to the group.
pub open spec fn kind_of(e: DirEntry) -> EntryKind {
    entry_kind(e.is_file, path_extension(e.path@), path_file_name(e.path@))
}

/// Whether an optional string is there and holds the text of `s`.
pub fn holds_text(o: &Option<String>, s: &str) -> (r: bool)
    ensures
        r == (text_of(*o) == Some(s@)),
{
    match o {
        Some(t) => same_text(t.as_str(), s),
        None => false,
    }
}

/// What an entry is to the group, from whether it is a file, its extension and
/// its file name.
pub fn classify_entry(is_file: bool, extension: &Option<String>, name: &Option<String>) -> (r:
    EntryKind)
    ensures
        r == entry_kind(is_file, text_of(*extension), text_of(*name)),
{
    if !is_file {
        EntryKind::Other
    } else if holds_text(extension, "profraw") && !holds_text(
        name,
        CARGO_DIFFTESTS_SELF_PROFILE_FILENAME,
    ) {
        EntryKind::OtherProfraw
    } else if holds_text(extension, "profdata") {
        EntryKind::Profdata
    } else if holds_text(name, CLEANED_FILENAME) {
        EntryKind::CleanedMarker
    } else {
        EntryKind::Other
    }
}

/// The entries among `entries` that are of the kind `kind`, in order.
pub open spec fn entries_of_kind(entries: Seq<DirEntry>, kind: EntryKind) -> Seq<DirEntry>
    decreases entries.len(),
{
    if entries.len() == 0 {
        Seq::empty()
    } else {
        let before = entries_of_kind(entries.drop_last(), kind);
        if kind_of(entries.last()) == kind {
            before.push(entries.last())
        } else {
            before
        }
    }
}

/// The paths of the entries, in order.
pub open spec fn entry_paths(entries: Seq<DirEntry>) -> Seq<Seq<char>> {
    entries.map_values(|e: DirEntry| e.path@)
}

/// What is worth telling about a group's directory but stops nothing.
#[derive(Debug)]
pub struct GroupWarnings {
    /// The merged profiles that are left aside because another one came first.
    pub ignored_profdata: Vec<String>,
    /// Whether the merged profile is older than the latest test run: merging
    /// again by force may be called for.
    pub profdata_outdated: bool,
    /// Whether the index is older than the latest test run: compiling it again
    /// by force may be called for.
    pub index_outdated: bool,
}

/// The earliest of `first` and the times at which the constituents first ran.
pub open spec fn earliest_run(first: Timestamp, constituents: Seq<GroupDifftest>) -> Timestamp
    decreases constituents.len(),
{
    if constituents.len() == 0 {
        first
    } else {
        let before = earliest_run(first, constituents.drop_last());
        if constituents.last().first_run.nanos < before.nanos {
            constituents.last().first_run
        } else {
            before
        }
    }
}

/// The earliest of `first` and the times at which the constituents first ran:
/// the time that a group is held to have run at, since nothing that changed
/// after it can have been seen by every constituent.
pub fn min_system_time(first: Timestamp, constituents: &Vec<GroupDifftest>) -> (r: Timestamp)
    ensures
        r == earliest_run(first, constituents@),
{
    let mut min = first;
    let mut i: usize = 0;
    while i < constituents.len()
        invariant
            i <= constituents.len(),
            min == earliest_run(first, constituents@.take(i as int)),
        decreases constituents.len() - i,
    {
        assert(constituents@.take(i + 1).drop_last() =~= constituents@.take(i as int));
        min = min.earlier(constituents[i].first_run);
        i += 1;
    }
    assert(constituents@.take(constituents@.len() as int) =~= constituents@);
    min
}

/// The earliest run is no later than the marker's time and than any
/// constituent's first run, and it is one of these times.
pub proof fn law_earliest_run_is_lower_bound(first: Timestamp, constituents: Seq<GroupDifftest>)
    ensures
        earliest_run(first, constituents).nanos <= first.nanos,
        forall|i: int|
            0 <= i < constituents.len() ==> earliest_run(first, constituents).nanos <= (
            #[trigger] constituents[i]).first_run.nanos,
        earliest_run(first, constituents) == first || exists|i: int|
            0 <= i < constituents.len() && earliest_run(first, constituents) == (
            #[trigger] constituents[i]).first_run,
    decreases constituents.len(),
{
    if constituents.len() > 0 {
        let front = constituents.drop_last();
        law_earliest_run_is_lower_bound(first, front);
        assert forall|i: int| 0 <= i < constituents.len() implies earliest_run(
            first,
            constituents,
        ).nanos <= (#[trigger] constituents[i]).first_run.nanos by {
            if i < front.len() {
                assert(front[i] == constituents[i]);
            }
        }
        if earliest_run(first, constituents) != first {
            if constituents.last().first_run.nanos < earliest_run(first, front).nanos {
                assert(constituents[constituents.len() - 1].first_run == earliest_run(
                    first,
                    constituents,
                ));
            } else {
                let i = choose|i: int|
                    0 <= i < front.len() && earliest_run(first, front) == (#[trigger] front[i]).first_run;
                assert(constituents[i] == front[i]);
            }
        }
    }
}

/// Whether all the constituents were made with one binary.
pub open spec fn one_binary(constituents: Seq<GroupDifftest>) -> bool {
    forall|i: int|
        0 <= i < constituents.len() ==> (#[trigger] constituents[i]).bin_path@
            == constituents[0].bin_path@
}

/// Checks that all the constituents of a group were made with one binary.
/// Fails with the first binary and the first one that differs from it.
pub fn check_one_binary(constituents: &Vec<GroupDifftest>) -> (r: Result<(), DifftestsError>)
    ensures
        r.is_ok() == one_binary(constituents@),
        match r {
            Ok(_) => true,
            Err(DifftestsError::MultipleBinariesInGroup(a, b)) => a@
                == constituents@[0].bin_path@ && a@ != b@ && exists|i: int|
                0 <= i < constituents@.len() && b@ == (#[trigger] constituents@[i]).bin_path@,
            Err(_) => false,
        },
{
    let mut i: usize = 1;
    if constituents.len() == 0 {
        return Ok(());
    }
    while i < constituents.len()
        invariant
            1 <= i <= constituents.len(),
            forall|k: int|
                0 <= k < i ==> (#[trigger] constituents@[k]).bin_path@
                    == constituents@[0].bin_path@,
        decreases constituents.len() - i,
    {
        if !same_text(constituents[i].bin_path.as_str(), constituents[0].bin_path.as_str()) {
            return Err(
                DifftestsError::MultipleBinariesInGroup(
                    constituents[0].bin_path.clone(),
                    constituents[i].bin_path.clone(),
                ),
            );
        }
        i += 1;
    }
    Ok(())
}

/// The latest of `first` and the times at which the constituents first ran.
pub open spec fn latest_run(first: Timestamp, constituents: Seq<GroupDifftest>) -> Timestamp
    decreases constituents.len(),
{
    if constituents.len() == 0 {
        first
    } else {
        let before = latest_run(first, constituents.drop_last());
        if constituents.last().first_run.nanos > before.nanos {
            constituents.last().first_run
        } else {
            before
        }
    }
}

/// The latest of `first` and the times at which the constituents first ran:
/// what a merged profile or an index has to be as new as.
pub fn max_system_time(first: Timestamp, constituents: &Vec<GroupDifftest>) -> (r: Timestamp)
    ensures
        r == latest_run(first, constituents@),
{
    let mut max = first;
    let mut i: usize = 0;
    while i < constituents.len()
        invariant
            i <= constituents.len(),
            max == latest_run(first, constituents@.take(i as int)),
        decreases constituents.len() - i,
    {
        assert(constituents@.take(i + 1).drop_last() =~= constituents@.take(i as int));
        if constituents[i].first_run.is_after(&max) {
            max = constituents[i].first_run;
        }
        i += 1;
    }
    assert(constituents@.take(constituents@.len() as int) =~= constituents@);
    max
}

/// What a scan of a group's directory finds.
#[derive(Debug)]
pub struct GroupScan {
    /// The profiles of child processes, in the order of the directory.
    pub other_profraws: Vec<String>,
    /// The merged profiles, in the order of the directory.
    pub profdata_files: Vec<FileMtime>,
    /// Whether the marker of a cleaned group is there.
    pub cleaned: bool,
}

/// The paths of the files, in order.
pub open spec fn file_paths(files: Seq<FileMtime>) -> Seq<Seq<char>> {
    files.map_values(|f: FileMtime| f.path@)
}

/// The times of the files, in order.
pub open spec fn file_times(files: Seq<FileMtime>) -> Seq<Timestamp> {
    files.map_values(|f: FileMtime| f.mtime)
}

/// The times of the entries, in order.
pub open spec fn entry_times(entries: Seq<DirEntry>) -> Seq<Timestamp> {
    entries.map_values(|e: DirEntry| e.mtime)
}

/// Whether `scan` is what the entries `entries` come to.
pub open spec fn scan_of(scan: GroupScan, entries: Seq<DirEntry>) -> bool {
    &&& texts(scan.other_profraws@) == entry_paths(
        entries_of_kind(entries, EntryKind::OtherProfraw),
    )
    &&& file_paths(scan.profdata_files@) == entry_paths(
        entries_of_kind(entries, EntryKind::Profdata),
    )
    &&& file_times(scan.profdata_files@) == entry_times(
        entries_of_kind(entries, EntryKind::Profdata),
    )
    &&& scan.cleaned == (entries_of_kind(entries, EntryKind::CleanedMarker).len() > 0)
}

/// Sorts the entries of a group's directory into the profiles of child
/// processes, the merged profiles and the marker of a cleaned group.
pub fn scan_entries(entries: &Vec<DirEntry>) -> (r: GroupScan)
    ensures
        scan_of(r, entries@),
{
    let mut scan = GroupScan {
        other_profraws: Vec::new(),
        profdata_files: Vec::new(),
        cleaned: false,
    };
    let mut i: usize = 0;
    proof {
        assert(texts(scan.other_profraws@) =~= entry_paths(
            entries_of_kind(entries@.take(0), EntryKind::OtherProfraw),
        ));
        assert(file_paths(scan.profdata_files@) =~= entry_paths(
            entries_of_kind(entries@.take(0), EntryKind::Profdata),
        ));
        assert(file_times(scan.profdata_files@) =~= entry_times(
            entries_of_kind(entries@.take(0), EntryKind::Profdata),
        ));
    }
    while i < entries.len()
        invariant
            i <= entries.len(),
            scan_of(scan, entries@.take(i as int)),
        decreases entries.len() - i,
    {
        let e = &entries[i];
        let extension = extension_of(e.path.as_str());
        let name = file_name_of(e.path.as_str());
        let kind = classify_entry(e.is_file, &extension, &name);
        let ghost before = entries@.take(i as int);
        let ghost now = entries@.take(i + 1);
        let ghost old_scan = scan;
        proof {
            assert(now.drop_last() =~= before);
            assert(now.last() == *e);
            assert(kind == kind_of(*e));
        }
        match kind {
            EntryKind::OtherProfraw => {
                proof {
                    lemma_texts_push(scan.other_profraws@, e.path);
                }
                scan.other_profraws.push(e.path.clone());
                proof {
                    assert(entry_paths(entries_of_kind(now, EntryKind::OtherProfraw))
                        =~= entry_paths(entries_of_kind(before, EntryKind::OtherProfraw)).push(
                        e.path@,
                    ));
                }
            },
            EntryKind::Profdata => {
                let f = FileMtime { path: e.path.clone(), mtime: e.mtime };
                scan.profdata_files.push(f);
                proof {
                    assert(file_paths(scan.profdata_files@) =~= file_paths(
                        old_scan.profdata_files@,
                    ).push(e.path@));
                    assert(file_times(scan.profdata_files@) =~= file_times(
                        old_scan.profdata_files@,
                    ).push(e.mtime));
                    assert(entry_paths(entries_of_kind(now, EntryKind::Profdata)) =~= entry_paths(
                        entries_of_kind(before, EntryKind::Profdata),
                    ).push(e.path@));
                    assert(entry_times(entries_of_kind(now, EntryKind::Profdata)) =~= entry_times(
                        entries_of_kind(before, EntryKind::Profdata),
                    ).push(e.mtime));
                }
            },
            EntryKind::CleanedMarker => {
                scan.cleaned = true;
            },
            EntryKind::Other => {},
        }
        i += 1;
    }
    assert(entries@.take(entries@.len() as int) =~= entries@);
    scan
}

/// A group as a plain value.
pub struct GroupView {
    /// The directory of the group.
    pub dir: Seq<char>,
    /// The description of the group.
    pub self_json: Seq<char>,
    /// The profile that the group's own process wrote.
    pub self_profraw: Seq<char>,
    /// The profiles that child processes wrote.
    pub other_profraws: Seq<Seq<char>>,
    /// The binaries of the child processes.
    pub other_bin_paths: Seq<Seq<char>>,
    /// The merged profile, where there is one.
    pub profdata_file: Option<Seq<char>>,
    /// The index, where there is one.
    pub index_data: Option<Seq<char>>,
    /// Whether the intermediate data of the group was deleted.
    pub cleaned: bool,
    /// The time that the group is held to have run at.
    pub mtime: Timestamp,
}

/// A group of test runs that share a binary, as found in its directory.
#[derive(Debug)]
pub struct GroupDifftestGroup {
    dir: String,
    self_json: String,
    self_profraw: String,
    other_profraws: Vec<String>,
    other_bin_paths: Vec<String>,
    profdata_file: Option<String>,
    index_data: Option<String>,
    cleaned: bool,
    mtime: Timestamp,
}

impl View for GroupDifftestGroup {
    type V = GroupView;

    closed spec fn view(&self) -> GroupView {
        GroupView {
            dir: self.dir@,
            self_json: self.self_json@,
            self_profraw: self.self_profraw@,
            other_profraws: texts(self.other_profraws@),
            other_bin_paths: texts(self.other_bin_paths@),
            profdata_file: text_of(self.profdata_file),
            index_data: text_of(self.index_data),
            cleaned: self.cleaned,
            mtime: self.mtime,
        }
    }
}

/// What has to be merged into what.
#[derive(Debug)]
pub struct ProfrawsMerge {
    /// The profiles to merge: the group's own, then those of child processes.
    pub profraws: Vec<String>,
    /// Where the merged profile goes.
    pub out_profdata: String,
}

/// What has to be exported.
#[derive(Debug)]
pub struct ProfdataExport {
    /// The merged profile to export from.
    pub profdata: String,
    /// The binaries of the child processes, which take part beside the
    /// group's own.
    pub other_bins: Vec<String>,
    /// Whether the files of the package registry's cache are left out.
    pub ignore_registry_files: bool,
}

impl GroupDifftestGroup {
    /// The directory of the group.
    pub fn dir(&self) -> (r: &str)
        ensures
            r@ == self@.dir,
    {
        self.dir.as_str()
    }

    /// The time that the group is held to have run at.
    pub fn mtime(&self) -> (r: Timestamp)
        ensures
            r == self@.mtime,
    {
        self.mtime
    }

    /// Whether the group has an index.
    pub fn has_index(&self) -> (r: bool)
        ensures
            r == self@.index_data.is_some(),
    {
        self.index_data.is_some()
    }

    /// Whether the group has a merged profile.
    pub fn has_profdata(&self) -> (r: bool)
        ensures
            r == self@.profdata_file.is_some(),
    {
        self.profdata_file.is_some()
    }

    /// Whether the intermediate data of the group was deleted.
    pub fn is_cleaned(&self) -> (r: bool)
        ensures
            r == self@.cleaned,
    {
        self.cleaned
    }

    /// Where the index of the group lies, where it has one.
    pub fn index_path(&self) -> (r: Option<String>)
        ensures
            text_of(r) == self@.index_data,
    {
        self.index_data.clone()
    }

    /// The profiles of the group: its own, then those of child processes.
    pub fn list_profraws(&self) -> (r: Vec<String>)
        ensures
            texts(r@) == seq![self@.self_profraw] + self@.other_profraws,
    {
        let mut out: Vec<String> = Vec::new();
        out.push(self.self_profraw.clone());
        let mut i: usize = 0;
        assert(texts(out@) =~= seq![self.self_profraw@] + texts(self.other_profraws@).take(0));
        while i < self.other_profraws.len()
            invariant
                i <= self.other_profraws.len(),
                texts(out@) == seq![self.self_profraw@] + texts(self.other_profraws@).take(
                    i as int,
                ),
            decreases self.other_profraws.len() - i,
        {
            proof {
                lemma_texts_push(out@, self.other_profraws@[i as int]);
            }
            out.push(self.other_profraws[i].clone());
            assert(texts(out@) =~= seq![self.self_profraw@] + texts(self.other_profraws@).take(
                i + 1,
            ));
            i += 1;
        }
        assert(texts(self.other_profraws@).take(self.other_profraws@.len() as int) =~= texts(
            self.other_profraws@,
        ));
        out
    }

    /// Where the merged profile of the group goes: `group.profdata` in its
    /// directory.
    pub fn out_profdata_path(&self) -> (r: String)
        ensures
            r@ == path_joined(self@.dir, GROUP_PROFDATA_FILENAME@),
    {
        join(self.dir.as_str(), GROUP_PROFDATA_FILENAME)
    }

    /// The merged profile of a group that has one.
    pub fn profdata_path(&self) -> (r: &str)
        requires
            self@.profdata_file.is_some(),
        ensures
            Some(r@) == self@.profdata_file,
    {
        self.profdata_file.as_ref().unwrap().as_str()
    }

    /// The binaries of the child processes.
    pub fn other_bins(&self) -> (r: Vec<String>)
        ensures
            texts(r@) == self@.other_bin_paths,
    {
        clone_list(&self.other_bin_paths)
    }

    /// Says what there is to merge. A cleaned group cannot be merged. A group
    /// that has a merged profile is merged again only by force; otherwise
    /// there is nothing to do.
    pub fn merge_profraws(&self, force: bool) -> (r: Result<Option<ProfrawsMerge>, DifftestsError>)
        ensures
            self@.cleaned ==> r == Err::<Option<ProfrawsMerge>, DifftestsError>(
                DifftestsError::DifftestCleaned,
            ),
            !self@.cleaned && self@.profdata_file.is_some() && !force ==> r == Ok::<
                Option<ProfrawsMerge>,
                DifftestsError,
            >(None),
            !self@.cleaned && (self@.profdata_file.is_none() || force) ==> match r {
                Ok(Some(merge)) => {
                    &&& texts(merge.profraws@) == seq![self@.self_profraw] + self@.other_profraws
                    &&& merge.out_profdata@ == path_joined(self@.dir, GROUP_PROFDATA_FILENAME@)
                },
                _ => false,
            },
    {
        if self.cleaned {
            return Err(DifftestsError::DifftestCleaned);
        }
        if self.profdata_file.is_some() && !force {
            return Ok(None);
        }
        Ok(
            Some(
                ProfrawsMerge {
                    profraws: self.list_profraws(),
                    out_profdata: self.out_profdata_path(),
                },
            ),
        )
    }

    /// Takes note that the profiles were merged: the group now has its merged
    /// profile at the place where it goes.
    pub fn profraws_merged(&mut self)
        requires
            !old(self)@.cleaned,
        ensures
            final(self)@ == (GroupView {
                profdata_file: Some(path_joined(old(self)@.dir, GROUP_PROFDATA_FILENAME@)),
                ..old(self)@
            }),
    {
        let out = self.out_profdata_path();
        self.profdata_file = Some(out);
    }

    /// Says what there is to export. A cleaned group cannot be exported from.
    pub fn export_profdata(&self, ignore_registry_files: bool) -> (r: Result<
        ProfdataExport,
        DifftestsError,
    >)
        requires
            self@.cleaned || self@.profdata_file.is_some(),
        ensures
            self@.cleaned ==> r == Err::<ProfdataExport, DifftestsError>(
                DifftestsError::DifftestCleaned,
            ),
            !self@.cleaned ==> match r {
                Ok(export) => {
                    &&& Some(export.profdata@) == self@.profdata_file
                    &&& texts(export.other_bins@) == self@.other_bin_paths
                    &&& export.ignore_registry_files == ignore_registry_files
                },
                Err(_) => false,
            },
    {
        if self.cleaned {
            return Err(DifftestsError::DifftestCleaned);
        }
        Ok(
            ProfdataExport {
                profdata: self.profdata_path().to_owned(),
                other_bins: self.other_bins(),
                ignore_registry_files,
            },
        )
    }

    /// Starts the analysis of the group from its exported coverage. The
    /// analysis takes the group to have run at its earliest run.
    pub fn start_analysis(&self, profdata: &CoverageData, test_info: TestInfo) -> (r: Result<
        AnalysisContext,
        DifftestsError,
    >)
        requires
            profdata.wf(),
        ensures
            self@.cleaned ==> r matches Err(DifftestsError::DifftestCleaned),
            !self@.cleaned ==> match r {
                Ok(cx) => {
                    &&& cx.outcome().is_none()
                    &&& cx.test_run() == self@.mtime
                    &&& cx.touched() == crate::index_data::index_files(
                        crate::index_data::touches(
                            *profdata,
                            crate::index_data::FileFilterPolicy::IgnoreRegistryPaths,
                        ),
                        Seq::<crate::index_data::PathRewritePolicy>::empty(),
                    )
                    &&& cx.regions() == crate::index_data::index_regions(
                        crate::index_data::touches(
                            *profdata,
                            crate::index_data::FileFilterPolicy::IgnoreRegistryPaths,
                        ),
                    )
                },
                Err(_) => false,
            },
    {
        if self.cleaned {
            return Err(DifftestsError::DifftestCleaned);
        }
        Ok(AnalysisContext::from_coverage(profdata, self.mtime, test_info))
    }

    /// Compiles the index of the group from its exported coverage. The index
    /// takes the group to have run at its earliest run.
    pub fn compile_test_index_data(
        &self,
        profdata: &CoverageData,
        test_info: TestInfo,
        index_data_compiler_config: &IndexDataCompilerConfig,
    ) -> (r: Result<TestIndex, DifftestsError>)
        requires
            profdata.wf(),
        ensures
            self@.cleaned ==> r matches Err(DifftestsError::DifftestCleaned),
            !self@.cleaned ==> match r {
                Ok(index) => {
                    &&& index.wf()
                    &&& index.test_run == self@.mtime
                    &&& index.is_index_of(*profdata, *index_data_compiler_config)
                },
                Err(_) => false,
            },
    {
        if self.cleaned {
            return Err(DifftestsError::DifftestCleaned);
        }
        Ok(TestIndex::index(self.mtime, test_info, profdata, index_data_compiler_config))
    }

    /// Marks the group as cleaned and says which file has to be deleted: its
    /// merged profile, where it has one. Cleaning a cleaned group changes
    /// nothing, and nothing undoes it.
    pub fn clean(&mut self) -> (r: Option<String>)
        ensures
            old(self)@.cleaned ==> r.is_none() && final(self)@ == old(self)@,
            !old(self)@.cleaned ==> text_of(r) == old(self)@.profdata_file && final(self)@ == (
            GroupView { profdata_file: None, cleaned: true, ..old(self)@ }),
    {
        if self.cleaned {
            return None;
        }
        let file = self.profdata_file.take();
        self.cleaned = true;
        file
    }
}

/// What stands in the way of reading a group from its directory, if anything:
/// the first of the checks that fails.
pub enum GroupObstacle {
    /// Nothing does.
    Nothing,
    /// The description of the group is missing.
    NoSelfJson,
    /// The profile of the group's own process is missing.
    NoSelfProfraw,
    /// The version file is missing.
    NoVersion,
    /// The data was written by another version.
    OtherVersion,
    /// The constituents were made with more than one binary.
    SeveralBinaries,
}

/// What stands in the way of reading a group from its directory.
pub open spec fn group_obstacle(
    listing: GroupDirListing,
    constituents: Seq<GroupDifftest>,
    expected_version: Seq<char>,
) -> GroupObstacle {
    if !listing.self_json_exists {
        GroupObstacle::NoSelfJson
    } else if !listing.self_profraw_exists {
        GroupObstacle::NoSelfProfraw
    } else if listing.version.is_none() {
        GroupObstacle::NoVersion
    } else if listing.version.unwrap()@ != expected_version {
        GroupObstacle::OtherVersion
    } else if !one_binary(constituents) {
        GroupObstacle::SeveralBinaries
    } else {
        GroupObstacle::Nothing
    }
}

/// The group that lies in `dir`, as a plain value.
pub open spec fn group_found(
    dir: Seq<char>,
    other_bin_paths: Seq<Seq<char>>,
    index: Option<FileMtime>,
    listing: GroupDirListing,
    constituents: Seq<GroupDifftest>,
) -> GroupView {
    let profdata = entry_paths(entries_of_kind(listing.entries@, EntryKind::Profdata));
    GroupView {
        dir,
        self_json: path_joined(dir, CARGO_DIFFTESTS_GROUP_SELF_JSON_FILENAME@),
        self_profraw: path_joined(dir, CARGO_DIFFTESTS_SELF_PROFILE_FILENAME@),
        other_profraws: entry_paths(entries_of_kind(listing.entries@, EntryKind::OtherProfraw)),
        other_bin_paths,
        profdata_file: if profdata.len() > 0 {
            Some(profdata[0])
        } else {
            None
        },
        index_data: match index {
            Some(f) => Some(f.path@),
            None => None,
        },
        cleaned: entries_of_kind(listing.entries@, EntryKind::CleanedMarker).len() > 0,
        mtime: earliest_run(listing.first_test_run, constituents),
    }
}

/// Whether `warnings` are what there is to tell about the directory.
pub open spec fn warnings_of(
    warnings: GroupWarnings,
    index: Option<FileMtime>,
    listing: GroupDirListing,
    constituents: Seq<GroupDifftest>,
) -> bool {
    let profdata = entries_of_kind(listing.entries@, EntryKind::Profdata);
    let latest = latest_run(listing.first_test_run, constituents);
    &&& texts(warnings.ignored_profdata@) == if profdata.len() > 0 {
        entry_paths(profdata).skip(1)
    } else {
        Seq::<Seq<char>>::empty()
    }
    &&& warnings.profdata_outdated == (profdata.len() > 0 && profdata[0].mtime.nanos
        < latest.nanos)
    &&& warnings.index_outdated == match index {
        Some(f) => f.mtime.nanos < latest.nanos,
        None => false,
    }
}

/// Reads a group from what was found in its directory.
///
/// `index` is the index of the group where one exists at the place that the
/// resolver names; `constituents` are the test runs that make the group up, as
/// far as they are known one by one. The checks are made in this order: the
/// description is there, the group's own profile is there, the version file is
/// there, it holds `expected_version`, and the constituents share one binary.
/// The group is held to have run at its earliest run. Of several merged
/// profiles the first counts.
pub fn index_group(
    dir: String,
    other_bin_paths: Vec<String>,
    index: Option<FileMtime>,
    listing: &GroupDirListing,
    constituents: &Vec<GroupDifftest>,
    expected_version: &str,
) -> (r: Result<(GroupDifftestGroup, GroupWarnings), DifftestsError>)
    ensures
        match group_obstacle(*listing, constituents@, expected_version@) {
            GroupObstacle::Nothing => match r {
                Ok((group, warnings)) => {
                    &&& group@ == group_found(
                        dir@,
                        texts(other_bin_paths@),
                        index,
                        *listing,
                        constituents@,
                    )
                    &&& warnings_of(warnings, index, *listing, constituents@)
                },
                Err(_) => false,
            },
            GroupObstacle::NoSelfJson => r matches Err(DifftestsError::SelfJsonDoesNotExist(p))
                && p@ == path_joined(dir@, CARGO_DIFFTESTS_GROUP_SELF_JSON_FILENAME@),
            GroupObstacle::NoSelfProfraw => r matches Err(
                DifftestsError::SelfProfrawDoesNotExist(p),
            ) && p@ == path_joined(dir@, CARGO_DIFFTESTS_SELF_PROFILE_FILENAME@),
            GroupObstacle::NoVersion => r matches Err(
                DifftestsError::CargoDifftestsVersionDoesNotExist(p),
            ) && p@ == path_joined(dir@, CARGO_DIFFTESTS_VERSION_FILENAME@),
            GroupObstacle::OtherVersion => r matches Err(
                DifftestsError::CargoDifftestsVersionMismatch(found, expected),
            ) && Some(found@) == text_of(listing.version) && expected@ == expected_version@,
            GroupObstacle::SeveralBinaries => r matches Err(
                DifftestsError::MultipleBinariesInGroup(a, b),
            ) && a@ == constituents@[0].bin_path@ && a@ != b@ && exists|i: int|
                0 <= i < constituents@.len() && b@ == (#[trigger] constituents@[i]).bin_path@,
        },
{
    let self_json = join(dir.as_str(), CARGO_DIFFTESTS_GROUP_SELF_JSON_FILENAME);
    if !listing.self_json_exists {
        return Err(DifftestsError::SelfJsonDoesNotExist(self_json));
    }
    let self_profraw = join(dir.as_str(), CARGO_DIFFTESTS_SELF_PROFILE_FILENAME);
    if !listing.self_profraw_exists {
        return Err(DifftestsError::SelfProfrawDoesNotExist(self_profraw));
    }
    match &listing.version {
        None => {
            return Err(
                DifftestsError::CargoDifftestsVersionDoesNotExist(
                    join(dir.as_str(), CARGO_DIFFTESTS_VERSION_FILENAME),
                ),
            );
        },
        Some(version) => {
            if !same_text(version.as_str(), expected_version) {
                return Err(
                    DifftestsError::CargoDifftestsVersionMismatch(
                        version.clone(),
                        expected_version.to_owned(),
                    ),
                );
            }
        },
    }
    match check_one_binary(constituents) {
        Err(e) => {
            return Err(e);
        },
        Ok(_) => {},
    }
    let mtime = min_system_time(listing.first_test_run, constituents);
    let latest = max_system_time(listing.first_test_run, constituents);
    let scan = scan_entries(&listing.entries);
    let ghost profdata = entries_of_kind(listing.entries@, EntryKind::Profdata);
    proof {
        assert(file_paths(scan.profdata_files@).len() == scan.profdata_files@.len());
        assert(file_times(scan.profdata_files@).len() == scan.profdata_files@.len());
        assert(entry_paths(profdata).len() == profdata.len());
        assert(entry_times(profdata).len() == profdata.len());
    }

    let mut ignored_profdata: Vec<String> = Vec::new();
    let mut profdata_file: Option<String> = None;
    let mut profdata_outdated = false;
    if scan.profdata_files.len() > 0 {
        proof {
            assert(file_paths(scan.profdata_files@)[0] == entry_paths(profdata)[0]);
            assert(file_times(scan.profdata_files@)[0] == entry_times(profdata)[0]);
        }
        profdata_file = Some(scan.profdata_files[0].path.clone());
        profdata_outdated = latest.is_after(&scan.profdata_files[0].mtime);
        let mut i: usize = 1;
        assert(texts(ignored_profdata@) =~= file_paths(scan.profdata_files@).subrange(1, 1));
        while i < scan.profdata_files.len()
            invariant
                1 <= i <= scan.profdata_files.len(),
                texts(ignored_profdata@) == file_paths(scan.profdata_files@).subrange(
                    1,
                    i as int,
                ),
            decreases scan.profdata_files.len() - i,
        {
            proof {
                lemma_texts_push(ignored_profdata@, scan.profdata_files@[i as int].path);
            }
            ignored_profdata.push(scan.profdata_files[i].path.clone());
            assert(texts(ignored_profdata@) =~= file_paths(scan.profdata_files@).subrange(
                1,
                i + 1,
            ));
            i += 1;
        }
        assert(file_paths(scan.profdata_files@).subrange(1, scan.profdata_files@.len() as int)
            =~= entry_paths(profdata).skip(1));
    } else {
        assert(texts(ignored_profdata@) =~= Seq::<Seq<char>>::empty());
    }
    let (index_data, index_outdated) = match index {
        Some(f) => {
            let outdated = latest.is_after(&f.mtime);
            (Some(f.path), outdated)
        },
        None => (None, false),
    };
    let cleaned = scan.cleaned;
    let group = GroupDifftestGroup {
        dir,
        self_json,
        self_profraw,
        other_profraws: scan.other_profraws,
        other_bin_paths,
        profdata_file,
        index_data,
        cleaned,
        mtime,
    };
    let warnings = GroupWarnings { ignored_profdata, profdata_outdated, index_outdated };
    Ok((group, warnings))
}

} // verus!
