//! Coverage data as the coverage exporter reports it: functions, each with the
//! table of files it names and the regions that were counted in it.

use vstd::prelude::*;
use vstd::std_specs::convert::{FromSpec, FromSpecImpl};

verus! {

/// What `rustc_demangle::demangle` prints for the symbol `name`.
pub uninterp spec fn demangled_text(name: Seq<char>) -> Seq<char>;

/// Calls `rustc_demangle::demangle` and prints the result with its `Display`.
/// Trusted: the text is what the name `demangled_text` stands for.
#[verifier::external_body]
fn demangle(name: &str) -> (r: String)
    ensures
        r@ == demangled_text(name@),
{
    rustc_demangle::demangle(name).to_string()
}

/// A region of a function as the exporter writes it: eight numbers in a row.
#[derive(Clone, Copy, Debug)]
pub struct CoverageFunctionRegionSerDe(pub [usize; 8]);

/// A region of source code and how often it ran.
#[derive(Clone, Copy, Debug)]
pub struct Region {
    /// The line the region starts on.
    pub l1: usize,
    /// The column the region starts at.
    pub c1: usize,
    /// The line the region ends on.
    pub l2: usize,
    /// The column the region ends at.
    pub c2: usize,
    /// How often the region ran.
    pub execution_count: usize,
    /// Which file of its function's table the region lies in.
    pub file_id: usize,
    /// Which file of that table the region expands to.
    pub expanded_file_id: usize,
    /// The kind of region, as the exporter numbers it.
    pub region_kind: usize,
}

impl Region {
    /// Whether the region ran at all.
    pub open spec fn touched(self) -> bool {
        self.execution_count > 0
    }
}

impl From<CoverageFunctionRegionSerDe> for Region {
    fn from(v: CoverageFunctionRegionSerDe) -> (r: Self) {
        Region {
            l1: v.0[0],
            c1: v.0[1],
            l2: v.0[2],
            c2: v.0[3],
            execution_count: v.0[4],
            file_id: v.0[5],
            expanded_file_id: v.0[6],
            region_kind: v.0[7],
        }
    }
}

impl FromSpecImpl<CoverageFunctionRegionSerDe> for Region {
    open spec fn obeys_from_spec() -> bool {
        true
    }

    open spec fn from_spec(v: CoverageFunctionRegionSerDe) -> Self {
        Region {
            l1: v.0[0],
            c1: v.0[1],
            l2: v.0[2],
            c2: v.0[3],
            execution_count: v.0[4],
            file_id: v.0[5],
            expanded_file_id: v.0[6],
            region_kind: v.0[7],
        }
    }
}

impl From<Region> for CoverageFunctionRegionSerDe {
    fn from(r: Region) -> (v: Self) {
        CoverageFunctionRegionSerDe(
            [
                r.l1,
                r.c1,
                r.l2,
                r.c2,
                r.execution_count,
                r.file_id,
                r.expanded_file_id,
                r.region_kind,
            ],
        )
    }
}

impl FromSpecImpl<Region> for CoverageFunctionRegionSerDe {
    open spec fn obeys_from_spec() -> bool {
        true
    }

    open spec fn from_spec(r: Region) -> Self {
        CoverageFunctionRegionSerDe(
            [
                r.l1,
                r.c1,
                r.l2,
                r.c2,
                r.execution_count,
                r.file_id,
                r.expanded_file_id,
                r.region_kind,
            ],
        )
    }
}

/// A branch as the exporter writes it: nine numbers in a row.
#[derive(Clone, Copy, Debug)]
pub struct CoverageBranchSerDe(pub [usize; 9]);

/// A branch of source code and how often each side of it ran.
#[derive(Clone, Copy, Debug)]
pub struct CoverageBranch {
    /// The line the branch starts on.
    pub l1: usize,
    /// The line the branch ends on.
    pub l2: usize,
    /// The column the branch starts at.
    pub c1: usize,
    /// The column the branch ends at.
    pub c2: usize,
    /// How often the branch was taken.
    pub execution_count: usize,
    /// How often the branch was not taken.
    pub false_execution_count: usize,
    /// Which file of its function's table the branch lies in.
    pub file_id: usize,
    /// Which file of that table the branch expands to.
    pub expanded_file_id: usize,
    /// The kind of region, as the exporter numbers it.
    pub region_kind: usize,
}

impl From<CoverageBranchSerDe> for CoverageBranch {
    fn from(v: CoverageBranchSerDe) -> (r: Self) {
        CoverageBranch {
            l1: v.0[0],
            l2: v.0[1],
            c1: v.0[2],
            c2: v.0[3],
            execution_count: v.0[4],
            false_execution_count: v.0[5],
            file_id: v.0[6],
            expanded_file_id: v.0[7],
            region_kind: v.0[8],
        }
    }
}

impl FromSpecImpl<CoverageBranchSerDe> for CoverageBranch {
    open spec fn obeys_from_spec() -> bool {
        true
    }

    open spec fn from_spec(v: CoverageBranchSerDe) -> Self {
        CoverageBranch {
            l1: v.0[0],
            l2: v.0[1],
            c1: v.0[2],
            c2: v.0[3],
            execution_count: v.0[4],
            false_execution_count: v.0[5],
            file_id: v.0[6],
            expanded_file_id: v.0[7],
            region_kind: v.0[8],
        }
    }
}

impl From<CoverageBranch> for CoverageBranchSerDe {
    fn from(b: CoverageBranch) -> (v: Self) {
        CoverageBranchSerDe(
            [
                b.l1,
                b.l2,
                b.c1,
                b.c2,
                b.execution_count,
                b.false_execution_count,
                b.file_id,
                b.expanded_file_id,
                b.region_kind,
            ],
        )
    }
}

impl FromSpecImpl<CoverageBranch> for CoverageBranchSerDe {
    open spec fn obeys_from_spec() -> bool {
        true
    }

    open spec fn from_spec(b: CoverageBranch) -> Self {
        CoverageBranchSerDe(
            [
                b.l1,
                b.l2,
                b.c1,
                b.c2,
                b.execution_count,
                b.false_execution_count,
                b.file_id,
                b.expanded_file_id,
                b.region_kind,
            ],
        )
    }
}

/// A segment of a file as the exporter writes it: three numbers and three flags.
#[derive(Clone, Copy, Debug)]
pub struct CoverageFileSegmentSerDe(pub usize, pub usize, pub usize, pub bool, pub bool, pub bool);

/// A point of a file from which a count holds.
#[derive(Clone, Copy, Debug)]
pub struct CoverageFileSegment {
    /// The line of the point.
    pub line: usize,
    /// The column of the point.
    pub col: usize,
    /// The count that holds from the point on.
    pub count: usize,
    /// Whether the segment carries a count.
    pub has_count: bool,
    /// Whether a region starts at the point.
    pub is_region_entry: bool,
    /// Whether the segment is a gap between regions.
    pub is_gap_region: bool,
}

impl From<CoverageFileSegmentSerDe> for CoverageFileSegment {
    fn from(v: CoverageFileSegmentSerDe) -> (r: Self) {
        CoverageFileSegment {
            line: v.0,
            col: v.1,
            count: v.2,
            has_count: v.3,
            is_region_entry: v.4,
            is_gap_region: v.5,
        }
    }
}

impl FromSpecImpl<CoverageFileSegmentSerDe> for CoverageFileSegment {
    open spec fn obeys_from_spec() -> bool {
        true
    }

    open spec fn from_spec(v: CoverageFileSegmentSerDe) -> Self {
        CoverageFileSegment {
            line: v.0,
            col: v.1,
            count: v.2,
            has_count: v.3,
            is_region_entry: v.4,
            is_gap_region: v.5,
        }
    }
}

impl From<CoverageFileSegment> for CoverageFileSegmentSerDe {
    fn from(s: CoverageFileSegment) -> (v: Self) {
        CoverageFileSegmentSerDe(
            s.line,
            s.col,
            s.count,
            s.has_count,
            s.is_region_entry,
            s.is_gap_region,
        )
    }
}

impl FromSpecImpl<CoverageFileSegment> for CoverageFileSegmentSerDe {
    open spec fn obeys_from_spec() -> bool {
        true
    }

    open spec fn from_spec(s: CoverageFileSegment) -> Self {
        CoverageFileSegmentSerDe(
            s.line,
            s.col,
            s.count,
            s.has_count,
            s.is_region_entry,
            s.is_gap_region,
        )
    }
}

/// Writing a region down as the exporter does and reading it back gives the
/// region again, and so for branches and segments.
pub proof fn law_wire_round_trip(r: Region, b: CoverageBranch, s: CoverageFileSegment)
    ensures
        <Region as FromSpec<CoverageFunctionRegionSerDe>>::from_spec(
            <CoverageFunctionRegionSerDe as FromSpec<Region>>::from_spec(r),
        ) == r,
        <CoverageBranch as FromSpec<CoverageBranchSerDe>>::from_spec(
            <CoverageBranchSerDe as FromSpec<CoverageBranch>>::from_spec(b),
        ) == b,
        <CoverageFileSegment as FromSpec<CoverageFileSegmentSerDe>>::from_spec(
            <CoverageFileSegmentSerDe as FromSpec<CoverageFileSegment>>::from_spec(s),
        ) == s,
{
}

/// The expansion of a macro: where it stands and what it expands to.
#[derive(Clone, Debug)]
pub struct Expansion {
    /// The branches inside the expansion.
    pub branches: Vec<CoverageBranch>,
    /// The table of files that the regions of the expansion name.
    pub filenames: Vec<String>,
    /// Where the expansion stands.
    pub source_region: Region,
    /// The regions it expands to.
    pub target_regions: Vec<Region>,
}

/// One function of the instrumented program.
#[derive(Clone, Debug)]
pub struct CoverageFunction {
    /// The branches of the function.
    pub branches: Vec<CoverageBranch>,
    /// The table of files that the regions of this function name.
    pub filenames: Vec<String>,
    /// The name of the function, in readable form.
    pub name: String,
    /// How often the function was entered.
    pub count: usize,
    /// The regions of the function.
    pub regions: Vec<Region>,
}

impl CoverageFunction {
    /// Every region names a file of the function's own table.
    pub open spec fn wf(self) -> bool {
        forall|i: int|
            0 <= i < self.regions@.len() ==> (#[trigger] self.regions@[i]).file_id
                < self.filenames@.len()
    }

    /// A function as the exporter reports it, with the symbol `mangled_name`
    /// put into readable form.
    pub fn new(
        mangled_name: &str,
        count: usize,
        filenames: Vec<String>,
        regions: Vec<Region>,
        branches: Vec<CoverageBranch>,
    ) -> (r: Self)
        ensures
            r.name@ == demangled_text(mangled_name@),
            r.count == count,
            r.filenames == filenames,
            r.regions == regions,
            r.branches == branches,
    {
        CoverageFunction { branches, filenames, name: demangle(mangled_name), count, regions }
    }

    /// Whether every region names a file of the function's own table.
    pub fn is_well_formed(&self) -> (r: bool)
        ensures
            r == self.wf(),
    {
        let mut i: usize = 0;
        while i < self.regions.len()
            invariant
                i <= self.regions.len(),
                forall|k: int|
                    0 <= k < i ==> (#[trigger] self.regions@[k]).file_id < self.filenames@.len(),
            decreases self.regions.len() - i,
        {
            if self.regions[i].file_id >= self.filenames.len() {
                return false;
            }
            i += 1;
        }
        true
    }
}

/// The functions that one instrumented binary reported.
#[derive(Clone, Debug)]
pub struct CoverageMapping {
    /// The functions, in the order of the report.
    pub functions: Vec<CoverageFunction>,
}

impl CoverageMapping {
    /// Every function of the mapping is well formed.
    pub open spec fn wf(self) -> bool {
        forall|i: int| 0 <= i < self.functions@.len() ==> (#[trigger] self.functions@[i]).wf()
    }

    /// Whether every function of the mapping is well formed.
    pub fn is_well_formed(&self) -> (r: bool)
        ensures
            r == self.wf(),
    {
        let mut i: usize = 0;
        while i < self.functions.len()
            invariant
                i <= self.functions.len(),
                forall|k: int| 0 <= k < i ==> (#[trigger] self.functions@[k]).wf(),
            decreases self.functions.len() - i,
        {
            if !self.functions[i].is_well_formed() {
                return false;
            }
            i += 1;
        }
        true
    }
}

/// A coverage report: the mappings of the binaries that took part in a run.
#[derive(Clone, Debug)]
pub struct CoverageData {
    /// The mappings, in the order of the report.
    pub data: Vec<CoverageMapping>,
    /// The kind of report, as the exporter names it.
    pub kind: String,
    /// The version of the report's format.
    pub version: String,
}

impl CoverageData {
    /// Every mapping of the report is well formed.
    pub open spec fn wf(self) -> bool {
        forall|i: int| 0 <= i < self.data@.len() ==> (#[trigger] self.data@[i]).wf()
    }

    /// Whether every mapping of the report is well formed.
    pub fn is_well_formed(&self) -> (r: bool)
        ensures
            r == self.wf(),
    {
        let mut i: usize = 0;
        while i < self.data.len()
            invariant
                i <= self.data.len(),
                forall|k: int| 0 <= k < i ==> (#[trigger] self.data@[k]).wf(),
            decreases self.data.len() - i,
        {
            if !self.data[i].is_well_formed() {
                return false;
            }
            i += 1;
        }
        true
    }
}

} // verus!
