//! Where to look for a bundled Pikafish engine: the platform directory,
//! the executable's name, the candidate paths under a base directory and
//! the order of the base directories. Looking at the file system is the
//! caller's part; [`first_present`] picks from what it found.

use vstd::prelude::*;
use crate::collections::text_eq;
use crate::text::{nat_text, push_str, push_u64};

verus! {

/// Resolved engine and NNUE paths.
pub struct EnginePaths {
    /// The engine executable.
    pub engine: String,
    /// The NNUE evaluation file, when found.
    pub nnue: Option<String>,
}

/// Subdirectory of `engines/` for an operating system and architecture
/// (as `std::env::consts` names them); empty for other platforms, which use
/// the flat layout only.
pub open spec fn platform_dir_spec(os: Seq<char>, arch: Seq<char>) -> Seq<char> {
    if os == "macos"@ && arch == "aarch64"@ {
        "macos-arm64"@
    } else if os == "linux"@ && arch == "x86_64"@ {
        "linux-x86_64"@
    } else if os == "windows"@ && arch == "x86_64"@ {
        "windows-x86_64"@
    } else {
        ""@
    }
}

/// Subdirectory of `engines/` for a platform (see [`platform_dir_spec`]).
pub fn platform_dir(os: &str, arch: &str) -> (s: &'static str)
    ensures
        s@ == platform_dir_spec(os@, arch@),
{
    if text_eq(os, "macos") && text_eq(arch, "aarch64") {
        "macos-arm64"
    } else if text_eq(os, "linux") && text_eq(arch, "x86_64") {
        "linux-x86_64"
    } else if text_eq(os, "windows") && text_eq(arch, "x86_64") {
        "windows-x86_64"
    } else {
        ""
    }
}

/// File name of the engine executable.
pub fn exe_name(windows: bool) -> (s: &'static str)
    ensures
        s@ == if windows { "pikafish.exe"@ } else { "pikafish"@ },
{
    if windows {
        "pikafish.exe"
    } else {
        "pikafish"
    }
}

/// File name of the NNUE evaluation file.
pub fn nnue_name() -> (s: &'static str)
    ensures
        s@ == "pikafish.nnue"@,
{
    "pikafish.nnue"
}

/// The relative paths under a base directory where the engine may be:
/// `<platform>/<exe>` then `<exe>`, or only `<exe>` without a platform
/// directory. Each is a list of path components.
pub open spec fn engine_candidates_spec(platform: Seq<char>, exe: Seq<char>) -> Seq<Seq<Seq<char>>> {
    if platform.len() == 0 {
        seq![seq![exe]]
    } else {
        seq![seq![platform, exe], seq![exe]]
    }
}

/// The candidate paths under a base directory (see
/// [`engine_candidates_spec`]).
pub fn engine_candidates(platform: &str, exe: &str) -> (r: Vec<Vec<String>>)
    ensures
        r@.len() == engine_candidates_spec(platform@, exe@).len(),
        forall|i: int| 0 <= i < r@.len() ==> (#[trigger] r@[i])@.len() == engine_candidates_spec(
            platform@,
            exe@,
        )[i].len(),
        forall|i: int, j: int|
            0 <= i < r@.len() && 0 <= j < r@[i]@.len() ==> (#[trigger] r@[i]@[j])@ == engine_candidates_spec(
                platform@,
                exe@,
            )[i][j],
{
    let mut r: Vec<Vec<String>> = Vec::new();
    if crate::text::chars_of(platform).len() > 0 {
        let mut first: Vec<String> = Vec::new();
        first.push(platform.to_owned());
        first.push(exe.to_owned());
        r.push(first);
    }
    let mut flat: Vec<String> = Vec::new();
    flat.push(exe.to_owned());
    r.push(flat);
    r
}

/// The NNUE locations relative to the engine's directory: beside it, then
/// one level up (the shared file of the `engines/` layout).
pub open spec fn nnue_candidates_spec() -> Seq<Seq<Seq<char>>> {
    seq![seq!["pikafish.nnue"@], seq![".."@, "pikafish.nnue"@]]
}

/// The base directories searched, in order: `engines`, `../Resources/engines`
/// and `../../engines` next to the executable (when its directory is known),
/// then `engines` under the working directory (when known). Each is the
/// starting directory and the components to append.
pub open spec fn search_bases_spec(exe_known: bool, cwd_known: bool) -> Seq<(int, Seq<Seq<char>>)> {
    (if exe_known {
        seq![(0int, seq!["engines"@]), (0int, seq![".."@, "Resources"@, "engines"@]), (0int, seq![".."@, ".."@, "engines"@])]
    } else {
        seq![]
    }) + (if cwd_known {
        seq![(1int, seq!["engines"@])]
    } else {
        seq![]
    })
}

/// Index of the first candidate that is present, if any.
pub open spec fn first_present_spec(present: Seq<bool>) -> Option<int> {
    if exists|i: int| 0 <= i < present.len() && present[i] {
        Some(choose|i: int| 0 <= i < present.len() && present[i] && forall|j: int| 0 <= j < i ==> !present[j])
    } else {
        None
    }
}

/// Index of the first candidate that is present: detection takes the first
/// hit in its search order.
pub fn first_present(present: &[bool]) -> (r: Option<usize>)
    ensures
        match r {
            Some(i) => i < present@.len() && present@[i as int] && forall|j: int| 0 <= j < i ==> !present@[j],
            None => forall|j: int| 0 <= j < present@.len() ==> !present@[j],
        },
{
    let mut i: usize = 0;
    while i < present.len()
        invariant
            i <= present@.len(),
            forall|j: int| 0 <= j < i ==> !present@[j],
        decreases present@.len() - i,
    {
        if present[i] {
            return Some(i);
        }
        i = i + 1;
    }
    None
}

/// What a probe of one base directory finds: the first engine candidate
/// that is a file (its index) and, for it, the first NNUE location that is
/// a file; `None` when no candidate is a file.
pub fn probe_result(engine_present: &[bool], nnue_present: &[bool]) -> (r: Option<(usize, Option<usize>)>)
    ensures
        match r {
            Some((e, n)) => e < engine_present@.len() && engine_present@[e as int] && (forall|j: int|
                0 <= j < e ==> !engine_present@[j]) && match n {
                Some(k) => k < nnue_present@.len() && nnue_present@[k as int] && forall|j: int|
                    0 <= j < k ==> !nnue_present@[j],
                None => forall|j: int| 0 <= j < nnue_present@.len() ==> !nnue_present@[j],
            },
            None => forall|j: int| 0 <= j < engine_present@.len() ==> !engine_present@[j],
        },
{
    match first_present(engine_present) {
        Some(e) => Some((e, first_present(nnue_present))),
        None => None,
    }
}

/// The base directories searched (see [`search_bases_spec`]): the
/// starting directory (0: the executable's, 1: the working directory) and
/// the components to append.
pub fn search_bases(exe_known: bool, cwd_known: bool) -> (r: Vec<(usize, Vec<&'static str>)>)
    ensures
        r@.len() == search_bases_spec(exe_known, cwd_known).len(),
        forall|i: int| 0 <= i < r@.len() ==> (#[trigger] r@[i]).0 == search_bases_spec(exe_known, cwd_known)[i].0
            && r@[i].1@.len() == search_bases_spec(exe_known, cwd_known)[i].1.len() && forall|j: int|
            0 <= j < r@[i].1@.len() ==> (#[trigger] r@[i].1@[j])@ == search_bases_spec(exe_known, cwd_known)[i].1[j],
{
    let mut r: Vec<(usize, Vec<&'static str>)> = Vec::new();
    if exe_known {
        r.push((0, vec!["engines"]));
        r.push((0, vec!["..", "Resources", "engines"]));
        r.push((0, vec!["..", "..", "engines"]));
    }
    if cwd_known {
        r.push((1, vec!["engines"]));
    }
    assert(r@.len() == search_bases_spec(exe_known, cwd_known).len());
    r
}

/// Name of the cache directory of an extracted engine: `pikafish-<engine
/// bytes>-<nnue bytes>`, so a different build extracts afresh.
pub open spec fn cache_tag_text(engine_len: nat, nnue_len: nat) -> Seq<char> {
    "pikafish-"@ + nat_text(engine_len) + "-"@ + nat_text(nnue_len)
}

/// Name of the cache directory of an extracted engine.
pub fn cache_tag(engine_len: u64, nnue_len: u64) -> (s: String)
    ensures
        s@ == cache_tag_text(engine_len as nat, nnue_len as nat),
{
    let mut s = String::new();
    push_str(&mut s, "pikafish-");
    push_u64(&mut s, engine_len);
    push_str(&mut s, "-");
    push_u64(&mut s, nnue_len);
    s
}

} // verus!
