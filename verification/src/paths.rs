//! File paths, held as text. What a path is made of is left to the standard
//! library's `Path`: the functions here that ask it are not verified, and their
//! contracts give the answers a name.

use vstd::prelude::*;
use crate::text::{list_contains, texts};

verus! {

/// The text of an optional string.
pub open spec fn text_of(s: Option<String>) -> Option<Seq<char>> {
    match s {
        Some(s) => Some(s@),
        None => None,
    }
}

/// The components of `path`, in order, as `std::path::Path::components` yields
/// them on the platform that the library is built for.
pub uninterp spec fn path_components(path: Seq<char>) -> Seq<Seq<char>>;

/// What is left of `path` once the leading components `base` are taken away, as
/// `std::path::Path::strip_prefix` gives it; `None` where `path` does not begin
/// with the components of `base`.
pub uninterp spec fn path_without_prefix(path: Seq<char>, base: Seq<char>) -> Option<Seq<char>>;

/// The path that `std::path::Path::join` makes of `base` and `rest`.
pub uninterp spec fn path_joined(base: Seq<char>, rest: Seq<char>) -> Seq<char>;

/// The extension of the last component of `path`, as `std::path::Path::extension`
/// gives it.
pub uninterp spec fn path_extension(path: Seq<char>) -> Option<Seq<char>>;

/// The last component of `path`, as `std::path::Path::file_name` gives it.
pub uninterp spec fn path_file_name(path: Seq<char>) -> Option<Seq<char>>;

/// `path` written with `/` between its components, as `path_slash::PathExt::to_slash`
/// gives it on the platform that the library is built for.
pub uninterp spec fn path_with_slashes(path: Seq<char>) -> Option<Seq<char>>;

/// Calls `std::path::Path::components` and hands out the text of each component.
/// Trusted: the result is what the name `path_components` stands for.
#[verifier::external_body]
pub(crate) fn components_of(path: &str) -> (r: Vec<String>)
    ensures
        texts(r@) == path_components(path@),
{
    let mut out: Vec<String> = Vec::new();
    for c in std::path::Path::new(path).components() {
        out.push(c.as_os_str().to_string_lossy().into_owned());
    }
    out
}

/// Calls `std::path::Path::strip_prefix`. Trusted: the result is what the name
/// `path_without_prefix` stands for, `None` where the call reports an error.
#[verifier::external_body]
pub(crate) fn strip_prefix(path: &str, base: &str) -> (r: Option<String>)
    ensures
        text_of(r) == path_without_prefix(path@, base@),
{
    match std::path::Path::new(path).strip_prefix(base) {
        Ok(rest) => Some(rest.to_string_lossy().into_owned()),
        Err(_) => None,
    }
}

/// Calls `std::path::Path::join`. Trusted: the result is what the name
/// `path_joined` stands for.
#[verifier::external_body]
pub(crate) fn join(base: &str, rest: &str) -> (r: String)
    ensures
        r@ == path_joined(base@, rest@),
{
    std::path::Path::new(base).join(rest).to_string_lossy().into_owned()
}

/// Calls `std::path::Path::extension`. Trusted: the result is what the name
/// `path_extension` stands for.
#[verifier::external_body]
pub(crate) fn extension_of(path: &str) -> (r: Option<String>)
    ensures
        text_of(r) == path_extension(path@),
{
    match std::path::Path::new(path).extension() {
        Some(e) => Some(e.to_string_lossy().into_owned()),
        None => None,
    }
}

/// Calls `std::path::Path::file_name`. Trusted: the result is what the name
/// `path_file_name` stands for.
#[verifier::external_body]
pub(crate) fn file_name_of(path: &str) -> (r: Option<String>)
    ensures
        text_of(r) == path_file_name(path@),
{
    match std::path::Path::new(path).file_name() {
        Some(n) => Some(n.to_string_lossy().into_owned()),
        None => None,
    }
}

/// Calls `path_slash::PathExt::to_slash`. Trusted: the result is what the name
/// `path_with_slashes` stands for.
#[verifier::external_body]
pub(crate) fn to_slash(path: &str) -> (r: Option<String>)
    ensures
        text_of(r) == path_with_slashes(path@),
{
    match path_slash::PathExt::to_slash(std::path::Path::new(path)) {
        Some(s) => Some(s.into_owned()),
        None => None,
    }
}

/// Whether `components` are those of a file kept in the package registry's cache:
/// one of them is `.cargo` and one is `registry`.
pub open spec fn names_registry(components: Seq<Seq<char>>) -> bool {
    components.contains(".cargo"@) && components.contains("registry"@)
}

/// Whether a path with these components lies in the package registry's cache.
pub fn components_name_registry(components: &Vec<String>) -> (r: bool)
    ensures
        r == names_registry(texts(components@)),
{
    list_contains(components, ".cargo") && list_contains(components, "registry")
}

/// Whether the file lies in the package registry's cache, where nothing is
/// expected to change under the user's hands.
pub fn file_is_from_cargo_registry(f: &str) -> (r: bool)
    ensures
        r == names_registry(path_components(f@)),
{
    let components = components_of(f);
    components_name_registry(&components)
}

/// Where the index of a test directory is kept.
#[derive(Debug, Clone)]
pub enum DiscoverIndexPathResolver {
    /// The index lies under `to` where the directory lies under `from`.
    Remap { from: String, to: String },
    /// The index lies at `path`, whatever the directory.
    Custom { path: String },
}

impl DiscoverIndexPathResolver {
    /// The index path of directory `p` under this resolver.
    pub open spec fn resolved(self, p: Seq<char>) -> Option<Seq<char>> {
        match self {
            DiscoverIndexPathResolver::Remap { from, to } => match path_without_prefix(p, from@) {
                Some(rest) => Some(path_joined(to@, rest)),
                None => None,
            },
            DiscoverIndexPathResolver::Custom { path } => Some(path@),
        }
    }

    /// The index path of directory `p`: under `Remap`, `p` moved from below
    /// `from` to below `to`, and `None` where `p` is not below `from`.
    pub fn resolve(&self, p: &str) -> (r: Option<String>)
        ensures
            text_of(r) == self.resolved(p@),
    {
        match self {
            DiscoverIndexPathResolver::Remap { from, to } => {
                match strip_prefix(p, from.as_str()) {
                    Some(rest) => Some(join(to.as_str(), rest.as_str())),
                    None => None,
                }
            },
            DiscoverIndexPathResolver::Custom { path } => Some(path.clone()),
        }
    }
}

} // verus!
