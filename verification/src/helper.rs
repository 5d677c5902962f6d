//! The helper program that captures sound on macOS: where it is found, and when and
//! how it is compiled.

use vstd::prelude::*;
use vstd::string::*;

use crate::text::{is_blank, law_margin_comes_off, same, trim, trimmed, Margin};

verus! {

/// The directory of the helper program, below the resource directory of the
/// application or its source tree.
pub const HELPER_DIR: &'static str = "helper";

/// The file name of the helper program.
pub const HELPER_FILE: &'static str = "audio-tap";

/// Where the helper program was found.
#[derive(Clone, Copy, Debug, PartialEq, Eq, Structural)]
pub enum HelperPlace {
    /// Among the resources of the application.
    Bundled,
    /// In the source tree, during development.
    SourceTree,
}

/// Chooses the helper program: the bundled one if the resource directory is known and
/// holds it, else the one in the source tree, if it is there.
pub fn helper_path(bundled: Option<bool>, in_source_tree: bool) -> (r: Option<HelperPlace>)
    ensures
        r == (if bundled == Some(true) {
            Some(HelperPlace::Bundled)
        } else if in_source_tree {
            Some(HelperPlace::SourceTree)
        } else {
            None
        }),
{
    if let Some(exists) = bundled {
        if exists {
            return Some(HelperPlace::Bundled);
        }
    }
    if in_source_tree {
        Some(HelperPlace::SourceTree)
    } else {
        None
    }
}

/// The architecture to compile for, from the one that the build is for.
pub open spec fn arch_for(target: Option<Seq<char>>) -> Seq<char> {
    if target == Some("x86_64"@) {
        "x86_64"@
    } else {
        "arm64"@
    }
}

/// Tells the architecture to compile for, from the one that the build is for.
pub fn helper_arch(target: Option<&str>) -> (r: &'static str)
    ensures
        r@ == arch_for(
            match target {
                Some(name) => Some(name@),
                None => None,
            },
        ),
{
    match target {
        Some(name) => if same(name, "x86_64") {
            "x86_64"
        } else {
            "arm64"
        },
        None => "arm64",
    }
}

/// Whether the helper program that exists can stay: it is not older than its source,
/// and the marker file says that it was compiled for `arch`. Times count from any
/// common point; a file without one is missing.
pub open spec fn is_current(
    source_time: Option<i128>,
    helper_time: Option<i128>,
    marker: Option<Seq<char>>,
    arch: Seq<char>,
) -> bool {
    &&& source_time is Some && helper_time is Some && helper_time->0 >= source_time->0
    &&& marker is Some && trimmed(marker->0, Margin::Blank) == arch
}

/// Tells whether the helper program that exists can stay.
pub fn helper_is_current(
    source_time: Option<i128>,
    helper_time: Option<i128>,
    marker: Option<&str>,
    arch: &str,
) -> (r: bool)
    ensures
        r == is_current(
            source_time,
            helper_time,
            match marker {
                Some(text) => Some(text@),
                None => None,
            },
            arch@,
        ),
{
    let newer: bool = match source_time {
        Some(source) => match helper_time {
            Some(helper) => helper >= source,
            None => false,
        },
        None => false,
    };
    let matches: bool = match marker {
        Some(text) => same(trim(text, Margin::Blank), arch),
        None => false,
    };
    newer && matches
}

/// The arguments with which the compiler is called.
pub open spec fn compiler_words(arch: Seq<char>) -> Seq<Seq<char>> {
    seq![
        "swiftc"@,
        "-O"@,
        "-target"@,
        arch + "-apple-macos13.0"@,
        "-o"@,
        "helper/audio-tap"@,
        "helper/audio-tap.swift"@,
    ]
}

/// Gives the arguments with which the compiler is called.
pub fn compiler_args(arch: &str) -> (r: Vec<String>)
    ensures
        r@.map_values(|s: String| s@) == compiler_words(arch@),
{
    let mut target = arch.to_owned();
    target.append("-apple-macos13.0");
    let mut r: Vec<String> = Vec::new();
    r.push("swiftc".to_owned());
    r.push("-O".to_owned());
    r.push("-target".to_owned());
    r.push(target);
    r.push("-o".to_owned());
    r.push("helper/audio-tap".to_owned());
    r.push("helper/audio-tap.swift".to_owned());
    assert(r@.map_values(|s: String| s@) =~= compiler_words(arch@));
    r
}

/// What follows a compilation.
#[derive(Clone, Copy, Debug, PartialEq, Eq, Structural)]
pub enum CompileVerdict {
    /// It succeeded: note the architecture in the marker file.
    Mark,
    /// It failed, but an older helper program is there: warn and use it.
    KeepOld,
    /// It failed and there is none: give up.
    GiveUp,
}

/// Judges a compilation.
pub fn judge_compile(succeeded: bool, helper_exists: bool) -> (r: CompileVerdict)
    ensures
        r == (if succeeded {
            CompileVerdict::Mark
        } else if helper_exists {
            CompileVerdict::KeepOld
        } else {
            CompileVerdict::GiveUp
        }),
{
    if succeeded {
        CompileVerdict::Mark
    } else if helper_exists {
        CompileVerdict::KeepOld
    } else {
        CompileVerdict::GiveUp
    }
}

/// What a compilation notes in the marker file spares the next build for the same
/// architecture, and only that, for as long as the source does not change.
pub proof fn law_marker_spares_the_same_build(
    built_for: Option<Seq<char>>,
    building_for: Option<Seq<char>>,
    source_time: i128,
    helper_time: i128,
)
    ensures
        is_current(
            Some(source_time),
            Some(helper_time),
            Some(arch_for(built_for)),
            arch_for(building_for),
        ) <==> helper_time >= source_time && arch_for(built_for) == arch_for(building_for),
{
    reveal_strlit("x86_64");
    reveal_strlit("arm64");
    assert("x86_64"@.len() == 6 && "x86_64"@[0] == 'x' && "x86_64"@[5] == '4');
    assert("arm64"@.len() == 5 && "arm64"@[0] == 'a' && "arm64"@[4] == '4');
    assert(!is_blank('x') && !is_blank('a') && !is_blank('4'));
    assert(trimmed(arch_for(built_for), Margin::Blank) == arch_for(built_for));
}

/// The helper program is compiled for Intel if and only if the build is for it, and
/// otherwise for Apple's own processors.
pub proof fn law_architecture_follows_the_build(target: Option<Seq<char>>)
    ensures
        arch_for(target) == "x86_64"@ <==> target == Some("x86_64"@),
        arch_for(target) == "arm64"@ <==> target != Some("x86_64"@),
{
    reveal_strlit("x86_64");
    reveal_strlit("arm64");
    assert("x86_64"@.len() == 6);
    assert("arm64"@.len() == 5);
}

/// The helper program can stay only if the program, its source and the marker file are all
/// there. Then it can if and only if it is not older than its source and the marker file
/// holds the architecture, with any white space around it.
pub proof fn law_helper_stays_while_it_fits(
    source_time: Option<i128>,
    helper_time: Option<i128>,
    left: Seq<char>,
    noted: Seq<char>,
    right: Seq<char>,
    arch: Seq<char>,
)
    requires
        forall|i: int| 0 <= i < left.len() ==> is_blank(#[trigger] left[i]),
        forall|i: int| 0 <= i < right.len() ==> is_blank(#[trigger] right[i]),
        noted.len() > 0 ==> !is_blank(noted.first()) && !is_blank(noted.last()),
    ensures
        !is_current(source_time, helper_time, None, arch),
        is_current(source_time, helper_time, Some(left + noted + right), arch) <==> (
        source_time is Some && helper_time is Some && source_time->0 <= helper_time->0 && noted
            == arch),
{
    law_margin_comes_off(left, noted, right, Margin::Blank);
}

/// The compiler gets seven words. Only the target among them depends on the architecture,
/// and it begins with it; the program is written to where it is looked for.
pub proof fn law_compiler_is_told_the_target(arch: Seq<char>)
    ensures
        compiler_words(arch).len() == 7,
        compiler_words(arch)[0] == "swiftc"@,
        compiler_words(arch)[1] == "-O"@,
        compiler_words(arch)[2] == "-target"@,
        compiler_words(arch)[3].take(arch.len() as int) == arch,
        compiler_words(arch)[3].skip(arch.len() as int) == "-apple-macos13.0"@,
        compiler_words(arch)[4] == "-o"@,
        compiler_words(arch)[5] == "helper/audio-tap"@,
        compiler_words(arch)[6] == "helper/audio-tap.swift"@,
{
    let target = compiler_words(arch)[3];
    assert(target.take(arch.len() as int) =~= arch);
    assert(target.skip(arch.len() as int) =~= "-apple-macos13.0"@);
}

} // verus!
