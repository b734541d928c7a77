//! `demo.sh build`'s verified parts: build.sh's `die` texts, its tool gate,
//! the cmake arguments, ninja's progress lines, and the rows that narrate a
//! build without claiming one under `--dry-run`.

pub mod flow;

use vstd::prelude::*;

use crate::events::Severity;
use crate::paths::join_path;
use crate::text::{
    push_strs, strings_view, strs_view, chars_eq_str, contains_str, find_char, index_of, parse_u64, parse_u64_chars, str_chars,
    str_contains, sub_chars, trim, trim_chars, trim_start, trim_start_chars,
};

verus! {

/// `die "rustup x86_64-apple-darwin target missing — …"`.
pub const RUSTUP_TARGET_MISSING_MESSAGE: &'static str = "rustup x86_64-apple-darwin target missing — install rustup via https://rustup.rs and source ~/.cargo/env, then: rustup toolchain install stable && rustup target add x86_64-apple-darwin";

/// `die "submodules not initialized — ./demo.sh setup"`.
pub const SUBMODULES_NOT_INITIALIZED_MESSAGE: &'static str =
    "submodules not initialized — ./demo.sh setup";

/// `die "alvr_dashboard build failed — retry with: …"`.
pub const DASHBOARD_BUILD_FAILED_MESSAGE: &'static str = "alvr_dashboard build failed — retry with: (cd ext/ALVR && cargo build -p alvr_dashboard --release)";

/// `die "$tool missing — brew install cmake ninja mingw-w64"`.
pub fn missing_tool_message(tool: &str) -> (s: String)
    ensures
        s@ == tool@ + " missing — brew install cmake ninja mingw-w64"@,
{
    let mut s = String::from_str(tool);
    s.append(" missing — brew install cmake ninja mingw-w64");
    s
}

/// `die "encoder helper build produced no binary at $OXR_HELPER_BIN_BUILT"`.
pub fn helper_missing_binary_message(path: &str) -> (s: String)
    ensures
        s@ == "encoder helper build produced no binary at "@ + path@,
{
    let mut s = String::from_str("encoder helper build produced no binary at ");
    s.append(path);
    s
}

/// `die "encoder helper is not an arm64 executable ($(lipo -archs …)) — delete $OXR_HELPER_BUILD and re-run ./demo.sh build"`,
/// with `lipo_archs` the captured `lipo -archs` output.
pub fn helper_wrong_arch_message(lipo_archs: &str, helper_build_dir: &str) -> (s: String)
    ensures
        s@ == "encoder helper is not an arm64 executable ("@ + lipo_archs@ + ") — delete "@
            + helper_build_dir@ + " and re-run ./demo.sh build"@,
{
    let mut s = String::from_str("encoder helper is not an arm64 executable (");
    s.append(lipo_archs);
    s.append(") — delete ");
    s.append(helper_build_dir);
    s.append(" and re-run ./demo.sh build");
    s
}

/// `die "expected build output missing: $f"`.
pub fn missing_output_message(path: &str) -> (s: String)
    ensures
        s@ == "expected build output missing: "@ + path@,
{
    let mut s = String::from_str("expected build output missing: ");
    s.append(path);
    s
}

/// The die when even a re-copy cannot make the staged helper an arm64
/// executable.
pub fn staged_helper_unusable_message(lipo_archs: &str, staged: &str) -> (s: String)
    ensures
        s@ == "staged encoder helper is not an arm64 executable ("@ + lipo_archs@ + ") — delete "@
            + staged@ + " and re-run ./demo.sh build"@,
{
    let mut s = String::from_str("staged encoder helper is not an arm64 executable (");
    s.append(lipo_archs);
    s.append(") — delete ");
    s.append(staged);
    s.append(" and re-run ./demo.sh build");
    s
}

/// `cmake -S "$OXRSYS" -B "$OXR_BUILD" …`'s flags, build.sh's order.
pub const OXRSYS_X64_CONFIGURE_ARGS: [&'static str; 5] = [
    "-G",
    "Ninja",
    "-DCMAKE_BUILD_TYPE=Debug",
    "-DCMAKE_OSX_ARCHITECTURES=x86_64",
    "-DOXRSYS_ENABLE_ALVR=ON",
];

/// Repairs a `build-x64` cache stuck at `ON`; appended to the flags above.
pub const HELPER_OFF_ARG: &'static str = "-DOXRSYS_BUILD_ENCODER_HELPER=OFF";

/// The x86_64 configure flags followed by the helper-off flag.
pub fn oxrsys_x64_configure_args() -> (v: Vec<&'static str>)
    ensures
        v@.len() == 6,
        forall|i: int| 0 <= i < 5 ==> v@[i] == OXRSYS_X64_CONFIGURE_ARGS[i],
        v@[5] == HELPER_OFF_ARG,
{
    let mut v: Vec<&'static str> = Vec::new();
    let mut i: usize = 0;
    while i < 5
        invariant
            i <= 5,
            v@.len() == i,
            forall|j: int| 0 <= j < i ==> v@[j] == OXRSYS_X64_CONFIGURE_ARGS[j],
        decreases 5 - i,
    {
        v.push(OXRSYS_X64_CONFIGURE_ARGS[i]);
        i = i + 1;
    }
    v.push(HELPER_OFF_ARG);
    v
}

/// build.sh's `for tool in cmake ninja x86_64-w64-mingw32-gcc`, in order.
pub const REQUIRED_TOOLS: [&'static str; 3] = ["cmake", "ninja", "x86_64-w64-mingw32-gcc"];

/// The entries of a colon-separated search path, as `std::env::split_paths`
/// yields them on Unix (empty entries included).
pub open spec fn path_entries(search_path: Seq<char>) -> Seq<Seq<char>>
    decreases search_path.len(),
{
    let c = index_of(search_path, ':', 0);
    if c < 0 || c >= search_path.len() {
        seq![search_path]
    } else {
        seq![search_path.subrange(0, c)] + path_entries(search_path.subrange(c + 1, search_path.len() as int))
    }
}

proof fn lemma_index_of_bounds(s: Seq<char>, c: char, i: int)
    requires
        0 <= i <= s.len(),
    ensures
        i <= index_of(s, c, i) <= s.len(),
        index_of(s, c, i) < s.len() ==> s[index_of(s, c, i)] == c,
    decreases s.len() - i,
{
    if i < s.len() && s[i] != c {
        lemma_index_of_bounds(s, c, i + 1);
    }
}

/// The candidate paths `command -v <name>` tries over `search_path`, in order:
/// each entry joined with `name`.
pub fn tool_candidates(name: &str, search_path: &str) -> (out: Vec<String>)
    ensures
        out@.len() == path_entries(search_path@).len(),
        forall|i: int|
            0 <= i < out@.len() ==> #[trigger] out@[i]@ == join_path(
                path_entries(search_path@)[i],
                name@,
            ),
{
    let mut rest = str_chars(search_path);
    let mut out: Vec<String> = Vec::new();
    let ghost total = path_entries(search_path@);
    loop
        invariant
            total == path_entries(search_path@),
            out@.len() + path_entries(rest@).len() == total.len(),
            forall|i: int| 0 <= i < out@.len() ==> #[trigger] out@[i]@ == join_path(total[i], name@),
            forall|i: int|
                0 <= i < path_entries(rest@).len() ==> path_entries(rest@)[i] == total[out@.len()
                    + i],
        decreases rest@.len(),
    {
        let c = find_char(&rest, ':');
        proof {
            lemma_index_of_bounds(rest@, ':', 0);
        }
        let entry = sub_chars(&rest, 0, c);
        let dir = crate::text::chars_to_string(&entry);
        let candidate = crate::paths::join_rel(dir.as_str(), name);
        proof {
            assert(path_entries(rest@)[0] == entry@);
        }
        out.push(candidate);
        if c >= rest.len() {
            proof {
                assert(path_entries(rest@).len() == 1);
            }
            return out;
        }
        let next = sub_chars(&rest, c + 1, rest.len());
        proof {
            let pe = path_entries(rest@);
            assert(pe == seq![rest@.subrange(0, c as int)] + path_entries(next@));
            assert forall|i: int| 0 <= i < path_entries(next@).len() implies path_entries(
                next@,
            )[i] == total[out@.len() + i] by {
                assert(pe[i + 1] == path_entries(next@)[i]);
            }
        }
        rest = next;
    }
}

/// The die for the first of [`REQUIRED_TOOLS`] that did not resolve, in
/// shell order; `resolved[i]` says whether `REQUIRED_TOOLS[i]` was found.
pub fn tool_gate_message(resolved: &Vec<bool>) -> (r: Option<String>)
    requires
        resolved@.len() == 3,
    ensures
        match r {
            None => forall|i: int| 0 <= i < 3 ==> resolved@[i],
            Some(m) => exists|i: int|
                0 <= i < 3 && !resolved@[i] && (forall|j: int| 0 <= j < i ==> resolved@[j]) && m@
                    == REQUIRED_TOOLS[i]@ + " missing — brew install cmake ninja mingw-w64"@,
        },
{
    let mut i: usize = 0;
    while i < 3
        invariant
            resolved@.len() == 3,
            i <= 3,
            forall|j: int| 0 <= j < i ==> resolved@[j],
        decreases 3 - i,
    {
        if !resolved[i] {
            return Some(missing_tool_message(REQUIRED_TOOLS[i]));
        }
        i = i + 1;
    }
    None
}

/// `rustup target list --installed | grep -q x86_64-apple-darwin`.
pub fn rustup_has_target(installed: &str) -> (r: bool)
    ensures
        r == contains_str(installed@, "x86_64-apple-darwin"@),
{
    str_contains(installed, "x86_64-apple-darwin")
}

/// ninja's status prefix `[<current>/<total>]`: after leading whitespace, a
/// `[`, then up to the first `]` a `/`-separated pair of numbers, each
/// trimmed and parsed as a `u64`.
pub open spec fn parse_ninja_progress_spec(line: Seq<char>) -> Option<(u64, u64)> {
    let t = trim_start(line);
    if t.len() == 0 || t[0] != '[' {
        None
    } else {
        let rest = t.drop_first();
        let close = index_of(rest, ']', 0);
        if close >= rest.len() {
            None
        } else {
            let inner = rest.subrange(0, close);
            let slash = index_of(inner, '/', 0);
            if slash >= inner.len() {
                None
            } else {
                match (
                    parse_u64(trim(inner.subrange(0, slash))),
                    parse_u64(trim(inner.subrange(slash + 1, inner.len() as int))),
                ) {
                    (Some(a), Some(b)) => Some((a, b)),
                    _ => None,
                }
            }
        }
    }
}

/// Best-effort parse of ninja's default status prefix (`[12/340] …`);
/// `None` for any other shape.
pub fn parse_ninja_progress(line: &str) -> (r: Option<(u64, u64)>)
    ensures
        r == parse_ninja_progress_spec(line@),
{
    let t = trim_start_chars(&str_chars(line));
    if t.len() == 0 || t[0] != '[' {
        return None;
    }
    let rest = sub_chars(&t, 1, t.len());
    assert(rest@ =~= t@.drop_first());
    let close = find_char(&rest, ']');
    if close >= rest.len() {
        return None;
    }
    let inner = sub_chars(&rest, 0, close);
    let slash = find_char(&inner, '/');
    if slash >= inner.len() {
        return None;
    }
    let num = trim_chars(&sub_chars(&inner, 0, slash));
    let den = trim_chars(&sub_chars(&inner, slash + 1, inner.len()));
    match (parse_u64_chars(&num), parse_u64_chars(&den)) {
        (Some(a), Some(b)) => Some((a, b)),
        _ => None,
    }
}

/// `ok(built)` on a real run; `info(would)` under `--dry-run`, where nothing
/// was compiled and a "built" row would be a false claim.
pub fn narrate_built(dry_run: bool, built: &'static str, would: &'static str) -> (r: (Severity, &'static str))
    ensures
        dry_run ==> r == (Severity::Info, would),
        !dry_run ==> r == (Severity::Success, built),
{
    if dry_run {
        (Severity::Info, would)
    } else {
        (Severity::Success, built)
    }
}

/// The presence-sweep row under `--dry-run`, which skips the sweep entirely.
pub const OUTPUTS_SWEEP_SKIPPED: &'static str =
    "build-output presence sweep skipped under --dry-run (nothing was built)";

/// The presence-sweep row once every output is present.
pub const ALL_OUTPUTS_PRESENT: &'static str = "all build outputs present";

/// The row after a staged helper was re-copied because it was not an
/// executable arm64 binary.
pub fn helper_repaired_line(staged: &str) -> (s: String)
    ensures
        s@ == "repaired: "@ + staged@ + " (the staged copy was not an executable arm64 binary)"@,
{
    let mut s = String::from_str("repaired: ");
    s.append(staged);
    s.append(" (the staged copy was not an executable arm64 binary)");
    s
}

/// `cmake -S <source> -B <build_dir> <extra...>`: the configure step's
/// arguments.
pub fn configure_args(source: &str, build_dir: &str, extra: &Vec<&str>) -> (v: Vec<String>)
    ensures
        strings_view(v@) == seq!["-S"@, source@, "-B"@, build_dir@] + strs_view(extra@),
{
    let mut v: Vec<String> = Vec::new();
    v.push(String::from_str("-S"));
    v.push(String::from_str(source));
    v.push(String::from_str("-B"));
    v.push(String::from_str(build_dir));
    assert(strings_view(v@) =~= seq!["-S"@, source@, "-B"@, build_dir@]);
    push_strs(&mut v, extra);
    v
}

/// `cmake --build <build_dir> <extra...> -j8`: the build step's arguments.
pub fn build_args(build_dir: &str, extra: &Vec<&str>) -> (v: Vec<String>)
    ensures
        strings_view(v@) == seq!["--build"@, build_dir@] + strs_view(extra@) + seq!["-j8"@],
{
    let mut v: Vec<String> = Vec::new();
    v.push(String::from_str("--build"));
    v.push(String::from_str(build_dir));
    assert(strings_view(v@) =~= seq!["--build"@, build_dir@]);
    push_strs(&mut v, extra);
    let ghost mid = v@;
    v.push(String::from_str("-j8"));
    assert(strings_view(v@) =~= strings_view(mid).push("-j8"@));
    v
}

/// The arm64 helper's configure flags.
pub const HELPER_CONFIGURE_ARGS: [&'static str; 5] = [
    "-G",
    "Ninja",
    "-DCMAKE_BUILD_TYPE=Debug",
    "-DCMAKE_OSX_ARCHITECTURES=arm64",
    "-DOXRSYS_BUILD_ENCODER_HELPER=ON",
];

/// The arm64 helper's build flags: its one target.
pub const HELPER_BUILD_ARGS: [&'static str; 2] = ["--target", "oxrsys_encoder_helper"];

/// `cargo build -p alvr_dashboard --release`'s arguments.
pub const DASHBOARD_CARGO_ARGS: [&'static str; 4] = ["build", "-p", "alvr_dashboard", "--release"];

pub const OXRSYS_BUILDING: &'static str =
    "building oxrsys (build-x64: Ninja, Debug, x86_64, ALVR on)...";

pub const HELPER_BUILDING: &'static str =
    "building oxrsys encoder helper (build-helper-arm64: Ninja, Debug, arm64)...";

pub const WINEOPENXR_BUILDING: &'static str = "building wineopenxr (PE dll via mingw + unix .so)...";

pub const DASHBOARD_BUILDING: &'static str = "building ALVR server dashboard (release)...";

/// Each build step's `(built, would build)` narration pair.
pub const OXRSYS_BUILT: (&'static str, &'static str) = ("oxrsys built", "would build oxrsys (build-x64)");

pub const HELPER_BUILT: (&'static str, &'static str) = (
    "encoder helper built (arm64) and staged next to the runtime dylib",
    "would build the encoder helper and stage it next to the runtime dylib",
);

pub const WINEOPENXR_BUILT: (&'static str, &'static str) = ("wineopenxr built", "would build wineopenxr");

pub const DASHBOARD_BUILT: (&'static str, &'static str) = (
    "ALVR dashboard built",
    "would build the ALVR dashboard",
);

/// What the freshly built helper's postconditions decide. Under a dry run
/// nothing was built, so they are skipped rather than failed.
#[derive(Debug, Clone, Copy, PartialEq, Eq, Structural)]
pub enum HelperSourceGate {
    Proceed,
    /// die [`helper_missing_binary_message`].
    MissingBinary,
    /// die [`helper_wrong_arch_message`].
    WrongArch,
}

pub fn helper_source_gate(dry_run: bool, built_is_file: bool, built_is_arm64: bool) -> (g: HelperSourceGate)
    ensures
        g == (if dry_run {
            HelperSourceGate::Proceed
        } else if !built_is_file {
            HelperSourceGate::MissingBinary
        } else if !built_is_arm64 {
            HelperSourceGate::WrongArch
        } else {
            HelperSourceGate::Proceed
        }),
{
    if dry_run {
        HelperSourceGate::Proceed
    } else if !built_is_file {
        HelperSourceGate::MissingBinary
    } else if !built_is_arm64 {
        HelperSourceGate::WrongArch
    } else {
        HelperSourceGate::Proceed
    }
}

/// A staged helper that is not an executable arm64 binary is removed and
/// copied again; never under a dry run, which staged nothing.
pub fn staged_helper_needs_repair(dry_run: bool, staged_is_arm64: bool) -> (r: bool)
    ensures
        r == (!dry_run && !staged_is_arm64),
{
    !dry_run && !staged_is_arm64
}

} // verus!
