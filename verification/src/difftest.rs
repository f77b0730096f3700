//! What identifies a test run, when it took place, and what can go wrong while
//! its coverage is put to use.

use vstd::prelude::*;

verus! {

/// A point in time: nanoseconds since the Unix epoch.
#[derive(Clone, Copy, Debug, PartialEq, Eq, Structural)]
pub struct Timestamp {
    /// Nanoseconds since the Unix epoch; negative before it.
    pub nanos: i128,
}

impl Timestamp {
    /// Whether this point in time lies strictly after `other`.
    pub fn is_after(&self, other: &Timestamp) -> (r: bool)
        ensures
            r == (self.nanos > other.nanos),
    {
        self.nanos > other.nanos
    }

    /// The earlier of two points in time.
    pub fn earlier(self, other: Timestamp) -> (r: Timestamp)
        ensures
            r.nanos == if other.nanos < self.nanos {
                other.nanos
            } else {
                self.nanos
            },
    {
        if other.nanos < self.nanos {
            other
        } else {
            self
        }
    }
}

/// What identifies a test.
#[derive(Clone, Debug)]
pub struct TestInfo {
    /// The name of the test.
    pub test_name: String,
    /// The path of the binary that holds the test; empty where it was removed
    /// to make an index independent of the machine it was made on.
    pub test_binary: String,
    /// What else the caller supplied to identify the test, kept as it came.
    pub extra: String,
}

impl TestInfo {
    /// A copy of this description.
    pub fn duplicate(&self) -> (r: TestInfo)
        ensures
            r.test_name@ == self.test_name@,
            r.test_binary@ == self.test_binary@,
            r.extra@ == self.extra@,
    {
        TestInfo {
            test_name: self.test_name.clone(),
            test_binary: self.test_binary.clone(),
            extra: self.extra.clone(),
        }
    }
}

/// A configuration that the analysis cannot work with.
#[derive(Clone, Copy, Debug, PartialEq, Eq, Structural)]
pub enum InvalidConfigError {
    /// Matching by hunks was asked of an index that holds files but no regions.
    IndexHasNoRegions,
    /// The observed state of the repository is not the kind that the chosen
    /// algorithm reads.
    StateDoesNotFitAlgorithm,
}

/// What can go wrong while coverage is put to use.
#[derive(Debug)]
pub enum DifftestsError {
    /// The description of the test or group is missing; the path is where it
    /// was looked for.
    SelfJsonDoesNotExist(String),
    /// The profile of the test or group itself is missing.
    SelfProfrawDoesNotExist(String),
    /// The file that names the version the data was written by is missing.
    CargoDifftestsVersionDoesNotExist(String),
    /// The data was written by another version: the version found, then the
    /// version expected.
    CargoDifftestsVersionMismatch(String, String),
    /// The constituents of a group do not share one binary: two binaries found.
    MultipleBinariesInGroup(String, String),
    /// The intermediate data was deleted after indexing.
    DifftestCleaned,
    /// The configuration cannot be worked with.
    InvalidConfig(InvalidConfigError),
}

/// How coverage is exported from the profiling data.
#[derive(Clone, Debug)]
pub struct ExportProfdataConfig {
    /// Whether files of the package registry's cache are left out.
    pub ignore_registry_files: bool,
    /// Binaries besides the test's own whose coverage takes part.
    pub other_binaries: Vec<String>,
}

} // verus!
