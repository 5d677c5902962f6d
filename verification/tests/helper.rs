use yinlang::helper::{
    compiler_args, helper_arch, helper_is_current, helper_path, judge_compile, CompileVerdict, HelperPlace, HELPER_DIR,
    HELPER_FILE,
};

#[test]
fn the_bundled_helper_comes_first() {
    assert_eq!(helper_path(Some(true), true), Some(HelperPlace::Bundled));
    assert_eq!(helper_path(Some(true), false), Some(HelperPlace::Bundled));
    assert_eq!(helper_path(Some(false), true), Some(HelperPlace::SourceTree));
    assert_eq!(helper_path(None, true), Some(HelperPlace::SourceTree));
    assert_eq!(helper_path(Some(false), false), None);
    assert_eq!(helper_path(None, false), None);
    assert_eq!((HELPER_DIR, HELPER_FILE), ("helper", "audio-tap"));
}

#[test]
fn the_architecture_follows_the_target() {
    assert_eq!(helper_arch(Some("x86_64")), "x86_64");
    assert_eq!(helper_arch(Some("aarch64")), "arm64");
    assert_eq!(helper_arch(Some("")), "arm64");
    assert_eq!(helper_arch(None), "arm64");
}

#[test]
fn a_current_helper_is_not_compiled_again() {
    assert!(helper_is_current(Some(10), Some(10), Some("arm64"), "arm64"));
    assert!(helper_is_current(Some(10), Some(11), Some(" arm64\n"), "arm64"));
    assert!(!helper_is_current(Some(10), Some(9), Some("arm64"), "arm64"));
    assert!(!helper_is_current(None, Some(9), Some("arm64"), "arm64"));
    assert!(!helper_is_current(Some(10), None, Some("arm64"), "arm64"));
    assert!(!helper_is_current(Some(10), Some(10), Some("x86_64"), "arm64"));
    assert!(!helper_is_current(Some(10), Some(10), Some("arm 64"), "arm64"));
    assert!(!helper_is_current(Some(10), Some(10), None, "arm64"));
}

#[test]
fn the_marker_spares_the_same_architecture() {
    for built in ["x86_64", "aarch64"] {
        for building in ["x86_64", "aarch64"] {
            let marker = helper_arch(Some(built));
            assert_eq!(helper_is_current(Some(1), Some(2), Some(marker), helper_arch(Some(building))), built == building);
        }
    }
}

#[test]
fn the_compiler_gets_its_arguments() {
    assert_eq!(
        compiler_args("arm64"),
        vec!["swiftc", "-O", "-target", "arm64-apple-macos13.0", "-o", "helper/audio-tap", "helper/audio-tap.swift"]
    );
    assert_eq!(compiler_args("x86_64")[3], "x86_64-apple-macos13.0");
}

#[test]
fn a_failed_compilation_falls_back() {
    assert_eq!(judge_compile(true, true), CompileVerdict::Mark);
    assert_eq!(judge_compile(true, false), CompileVerdict::Mark);
    assert_eq!(judge_compile(false, true), CompileVerdict::KeepOld);
    assert_eq!(judge_compile(false, false), CompileVerdict::GiveUp);
}
