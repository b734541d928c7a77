use sabrage_core::stages::build::{
    helper_missing_binary_message, helper_repaired_line, helper_wrong_arch_message,
    missing_output_message, missing_tool_message, narrate_built, oxrsys_x64_configure_args,
    parse_ninja_progress, rustup_has_target, staged_helper_unusable_message, tool_candidates,
    tool_gate_message, ALL_OUTPUTS_PRESENT, DASHBOARD_BUILD_FAILED_MESSAGE, HELPER_OFF_ARG,
    OUTPUTS_SWEEP_SKIPPED, REQUIRED_TOOLS, RUSTUP_TARGET_MISSING_MESSAGE,
    SUBMODULES_NOT_INITIALIZED_MESSAGE,
};
use sabrage_core::events::Severity;
use sabrage_core::stages::build::{build_args, configure_args, HELPER_BUILD_ARGS, HELPER_CONFIGURE_ARGS};
use sabrage_core::stages::build::{helper_source_gate, staged_helper_needs_repair, HelperSourceGate};

/// Row of the ninja-progress table: (label, input line, expected parse).
type NinjaCase = (&'static str, &'static str, Option<(u64, u64)>);

#[test]
fn parse_ninja_progress_maps_status_lines_and_rejects_other_shapes() {
    let cases: &[NinjaCase] = &[
        (
            "default status prefix",
            "[12/340] Building CXX object foo.cpp.o",
            Some((12, 340)),
        ),
        (
            "leading whitespace tolerated — a chunk boundary can land mid-line padding",
            "  [1/2] Linking CXX foo",
            Some((1, 2)),
        ),
        (
            "a cmake configure line is not ninja's shape",
            "-- Configuring done",
            None,
        ),
        (
            "a compiler warning is not ninja's shape",
            "foo.cpp:12:3: warning: unused variable",
            None,
        ),
        (
            "wineopenxr's Makefiles-style `[ 50%]` is not ninja's shape",
            "[ 50%] Building CXX object foo",
            None,
        ),
        ("empty line", "", None),
        ("missing denominator", "[1/]", None),
        ("missing numerator", "[/2]", None),
        ("non-numeric numerator", "[abc/2]", None),
        ("no brackets at all", "no brackets at all", None),
        (
            "ninja's final summary line",
            "[340/340] Linking CXX executable oxrsys-runtime",
            Some((340, 340)),
        ),
    ];
    for (label, line, expected) in cases {
        assert_eq!(parse_ninja_progress(line), *expected, "{label}");
    }
}

#[test]
fn missing_tool_message_is_verbatim() {
    let cases: &[(&str, &str, &str)] = &[
        (
            "cmake",
            "cmake",
            "cmake missing — brew install cmake ninja mingw-w64",
        ),
        (
            "ninja",
            "ninja",
            "ninja missing — brew install cmake ninja mingw-w64",
        ),
        (
            "mingw gcc",
            "x86_64-w64-mingw32-gcc",
            "x86_64-w64-mingw32-gcc missing — brew install cmake ninja mingw-w64",
        ),
    ];
    for (label, tool, expected) in cases {
        assert_eq!(missing_tool_message(tool), *expected, "{label}");
    }
}

#[test]
fn fixed_die_texts_are_verbatim() {
    let cases: &[(&str, &str, &str)] = &[
        (
            "rustup target missing",
            RUSTUP_TARGET_MISSING_MESSAGE,
            "rustup x86_64-apple-darwin target missing — install rustup via https://rustup.rs \
                 and source ~/.cargo/env, then: rustup toolchain install stable && rustup target \
                 add x86_64-apple-darwin",
        ),
        (
            "submodules not initialized",
            SUBMODULES_NOT_INITIALIZED_MESSAGE,
            "submodules not initialized — ./demo.sh setup",
        ),
        (
            "alvr_dashboard build failed",
            DASHBOARD_BUILD_FAILED_MESSAGE,
            "alvr_dashboard build failed — retry with: (cd ext/ALVR && cargo build -p \
                 alvr_dashboard --release)",
        ),
    ];
    for (label, actual, expected) in cases {
        assert_eq!(actual, expected, "{label}");
    }
}

#[test]
fn helper_missing_binary_message_is_verbatim() {
    let path = "/repo/ext/oxrsys/build-helper-arm64/runtime/oxrsys-encoder-helper";
    assert_eq!(
        helper_missing_binary_message(path),
        "encoder helper build produced no binary at \
             /repo/ext/oxrsys/build-helper-arm64/runtime/oxrsys-encoder-helper"
    );
}

#[test]
fn missing_output_message_is_verbatim() {
    let path = "/repo/ext/oxrsys/build-x64/runtime/liboxrsys-runtime.dylib";
    assert_eq!(
        missing_output_message(path),
        "expected build output missing: \
             /repo/ext/oxrsys/build-x64/runtime/liboxrsys-runtime.dylib"
    );
}

#[test]
fn staged_helper_unusable_message_names_the_staged_path() {
    let path = "/repo/ext/oxrsys/build-x64/runtime/oxrsys-encoder-helper";
    // A file lipo cannot read reports no architectures at all.
    assert_eq!(
        staged_helper_unusable_message("", path),
        "staged encoder helper is not an arm64 executable () — delete \
             /repo/ext/oxrsys/build-x64/runtime/oxrsys-encoder-helper and re-run ./demo.sh build"
    );
}

#[test]
fn helper_wrong_arch_message_embeds_the_lipo_output_and_the_build_dir() {
    assert_eq!(
        helper_wrong_arch_message("x86_64", "/repo/ext/oxrsys/build-helper-arm64"),
        "encoder helper is not an arm64 executable (x86_64) — delete \
         /repo/ext/oxrsys/build-helper-arm64 and re-run ./demo.sh build"
    );
    assert_eq!(
        helper_wrong_arch_message("", "/b"),
        "encoder helper is not an arm64 executable () — delete /b and re-run ./demo.sh build"
    );
}

#[test]
fn tool_gate_reports_the_first_missing_tool_in_shell_order() {
    // Nothing present: cmake is first.
    assert_eq!(
        tool_gate_message(&vec![false, false, false]),
        Some(missing_tool_message("cmake"))
    );
    // cmake present, ninja absent: ninja is reported next.
    assert_eq!(
        tool_gate_message(&vec![true, false, false]),
        Some(missing_tool_message("ninja"))
    );
    // A later gap does not outrank an earlier one.
    assert_eq!(
        tool_gate_message(&vec![true, false, true]),
        Some(missing_tool_message("ninja"))
    );
    // cmake + ninja present, mingw absent.
    assert_eq!(
        tool_gate_message(&vec![true, true, false]),
        Some(missing_tool_message("x86_64-w64-mingw32-gcc"))
    );
    // All three present: no die text.
    assert_eq!(tool_gate_message(&vec![true, true, true]), None);
    assert_eq!(REQUIRED_TOOLS, ["cmake", "ninja", "x86_64-w64-mingw32-gcc"]);
}

#[test]
fn tool_candidates_follow_path_entries_in_order() {
    assert_eq!(
        tool_candidates("cmake", "/opt/homebrew/bin:/usr/bin/"),
        vec!["/opt/homebrew/bin/cmake".to_string(), "/usr/bin/cmake".to_string()]
    );
    assert_eq!(tool_candidates("ninja", "/a"), vec!["/a/ninja".to_string()]);
}

#[test]
fn the_rustup_target_is_found_anywhere_in_the_listing() {
    assert!(rustup_has_target("aarch64-apple-darwin\nx86_64-apple-darwin\n"));
    assert!(!rustup_has_target("aarch64-apple-darwin\n"));
    assert!(!rustup_has_target(""));
}

#[test]
fn the_oxrsys_configure_argv_turns_the_helper_off() {
    let args = oxrsys_x64_configure_args();
    assert_eq!(args.len(), 6);
    assert_eq!(args[5], HELPER_OFF_ARG);
    assert_eq!(HELPER_OFF_ARG, "-DOXRSYS_BUILD_ENCODER_HELPER=OFF");
}

#[test]
fn build_narration_says_would_under_dry_run() {
    assert_eq!(
        narrate_built(true, ALL_OUTPUTS_PRESENT, OUTPUTS_SWEEP_SKIPPED),
        (Severity::Info, OUTPUTS_SWEEP_SKIPPED)
    );
    assert_eq!(
        narrate_built(false, ALL_OUTPUTS_PRESENT, OUTPUTS_SWEEP_SKIPPED),
        (Severity::Success, ALL_OUTPUTS_PRESENT)
    );
    assert_eq!(
        helper_repaired_line("/r/oxrsys-encoder-helper"),
        "repaired: /r/oxrsys-encoder-helper (the staged copy was not an executable arm64 binary)"
    );
}

#[test]
fn the_cmake_argv_is_build_shs() {
    assert_eq!(
        configure_args("/repo/ext/oxrsys", "/repo/ext/oxrsys/build-helper-arm64", &HELPER_CONFIGURE_ARGS.to_vec()),
        vec![
            "-S",
            "/repo/ext/oxrsys",
            "-B",
            "/repo/ext/oxrsys/build-helper-arm64",
            "-G",
            "Ninja",
            "-DCMAKE_BUILD_TYPE=Debug",
            "-DCMAKE_OSX_ARCHITECTURES=arm64",
            "-DOXRSYS_BUILD_ENCODER_HELPER=ON",
        ]
    );
    assert_eq!(
        build_args("/b", &HELPER_BUILD_ARGS.to_vec()),
        vec!["--build", "/b", "--target", "oxrsys_encoder_helper", "-j8"]
    );
    assert_eq!(build_args("/b", &vec![]), vec!["--build", "/b", "-j8"]);
}

#[test]
fn the_helper_gates_skip_under_dry_run() {
    assert_eq!(helper_source_gate(true, false, false), HelperSourceGate::Proceed);
    assert_eq!(helper_source_gate(false, false, false), HelperSourceGate::MissingBinary);
    assert_eq!(helper_source_gate(false, true, false), HelperSourceGate::WrongArch);
    assert_eq!(helper_source_gate(false, true, true), HelperSourceGate::Proceed);
    assert!(staged_helper_needs_repair(false, false));
    assert!(!staged_helper_needs_repair(true, false));
    assert!(!staged_helper_needs_repair(false, true));
}
