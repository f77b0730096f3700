//! What the compiler wrapper does to the compiler's arguments: it asks for
//! coverage instrumentation where a crate is built to have its tests analysed.

use vstd::prelude::*;
use crate::text::{has_prefix, lemma_texts_push, same_text, starts_with, texts};

verus! {

/// Whether `first` stands in `args` with `second` right after it.
pub open spec fn has_pair(args: Seq<Seq<char>>, first: Seq<char>, second: Seq<char>) -> bool {
    exists|i: int| 0 <= i < args.len() - 1 && #[trigger] args[i] == first && args[i + 1] == second
}

/// Whether `first` stands in `args` with `second` right after it.
pub fn contains_pair(args: &Vec<String>, first: &str, second: &str) -> (r: bool)
    ensures
        r == has_pair(texts(args@), first@, second@),
{
    if args.len() < 2 {
        return false;
    }
    let mut i: usize = 0;
    while i < args.len() - 1
        invariant
            args.len() >= 2,
            i <= args.len() - 1,
            forall|k: int|
                0 <= k < i ==> !(#[trigger] texts(args@)[k] == first@ && texts(args@)[k + 1]
                    == second@),
        decreases args.len() - i,
    {
        if same_text(args[i].as_str(), first) && same_text(args[i + 1].as_str(), second) {
            assert(texts(args@)[i as int] == first@ && texts(args@)[i + 1] == second@);
            return true;
        }
        i += 1;
    }
    false
}

/// Whether the compiler is called for a crate that is built to have its tests
/// analysed: `--cfg cargo_difftests` is among the arguments.
pub fn is_difftests_profile(remaining: &Vec<String>) -> (r: bool)
    ensures
        r == has_pair(texts(remaining@), "--cfg"@, "cargo_difftests"@),
{
    contains_pair(remaining, "--cfg", "cargo_difftests")
}

/// Whether the wrapper of this name is the one for the members of the
/// workspace.
pub fn is_workspace_member(name: &str) -> (r: bool)
    ensures
        r == has_prefix(name@, "rustc-wrapper-difftests-workspace"@),
{
    starts_with(name, "rustc-wrapper-difftests-workspace")
}

/// The arguments with instrumentation asked for: `-C instrument-coverage` is
/// added at the end unless it is there.
pub open spec fn instrumented(args: Seq<Seq<char>>) -> Seq<Seq<char>> {
    if has_pair(args, "-C"@, "instrument-coverage"@) {
        args
    } else {
        args + seq!["-C"@, "instrument-coverage"@]
    }
}

/// The arguments with instrumentation asked for.
pub fn instrument(remaining: Vec<String>) -> (r: Vec<String>)
    ensures
        texts(r@) == instrumented(texts(remaining@)),
{
    let mut remaining = remaining;
    if !contains_pair(&remaining, "-C", "instrument-coverage") {
        let ghost before = texts(remaining@);
        let a = "-C".to_owned();
        proof {
            lemma_texts_push(remaining@, a);
        }
        remaining.push(a);
        let b = "instrument-coverage".to_owned();
        proof {
            lemma_texts_push(remaining@, b);
        }
        remaining.push(b);
        assert(texts(remaining@) =~= before + seq!["-C"@, "instrument-coverage"@]);
    }
    remaining
}

/// The arguments that the wrapper hands on to the compiler. Instrumentation
/// is asked for where the crate is built to have its tests analysed and is a
/// member of the workspace; every other call goes through as it is.
pub fn rustc_wrapper_impl(remaining: Vec<String>, is_workspace_member: bool) -> (r: Vec<String>)
    ensures
        texts(r@) == if is_workspace_member && has_pair(
            texts(remaining@),
            "--cfg"@,
            "cargo_difftests"@,
        ) {
            instrumented(texts(remaining@))
        } else {
            texts(remaining@)
        },
{
    if is_difftests_profile(&remaining) && is_workspace_member {
        instrument(remaining)
    } else {
        remaining
    }
}

} // verus!
