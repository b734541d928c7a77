//! `demo.sh setup`'s verified parts: the shell's `protocol` recipe, and the
//! rows setup.sh prints — with a dry run never claiming a state it only
//! planned.

use vstd::prelude::*;

use crate::events::Severity;
pub mod flow;

use crate::text::{push_strs, strings_view, strs_view, chars_eq_str, chars_to_string, contains_str, find_char, index_of, lines,
    split_lines, str_chars, str_contains, sub_chars, views};

verus! {

/// POSIX `[[:space:]]`: space, tab, newline, vertical tab, form feed, return.
pub open spec fn is_blank(c: char) -> bool {
    c == ' ' || ('\t' <= c && c <= '\r')
}

/// The first index at or after `i` that is not `[[:space:]]`, else `s.len()`.
pub open spec fn skip_blank(s: Seq<char>, i: int) -> int
    decreases s.len() - i,
{
    if i >= s.len() {
        s.len() as int
    } else if !is_blank(s[i]) {
        i
    } else {
        skip_blank(s, i + 1)
    }
}

proof fn lemma_skip_blank(s: Seq<char>, a: int, b: int)
    requires
        0 <= a <= b <= s.len(),
        forall|j: int| a <= j < b ==> is_blank(s[j]),
        b == s.len() || !is_blank(s[b]),
    ensures
        skip_blank(s, a) == b,
    decreases b - a,
{
    if a < b {
        lemma_skip_blank(s, a + 1, b);
    }
}

fn skip_blank_exec(s: &Vec<char>, i: usize) -> (r: usize)
    requires
        i <= s@.len(),
    ensures
        r == skip_blank(s@, i as int),
        i <= r <= s@.len(),
{
    let mut j = i;
    while j < s.len() && (s[j] == ' ' || ('\t' <= s[j] && s[j] <= '\r'))
        invariant
            i <= j <= s@.len(),
            forall|k: int| i <= k < j ==> is_blank(s@[k]),
        decreases s.len() - j,
    {
        j = j + 1;
    }
    proof {
        lemma_skip_blank(s@, i as int, j as int);
    }
    j
}

/// awk's `/^[[:space:]]*protocol[[:space:]]*=/`.
pub open spec fn is_protocol_line(l: Seq<char>) -> bool {
    let a = skip_blank(l, 0);
    &&& a + 8 <= l.len()
    &&& l.subrange(a, a + 8) == "protocol"@
    &&& skip_blank(l, a + 8) < l.len()
    &&& l[skip_blank(l, a + 8)] == '='
}

/// awk's `$2` with `-F'"'`: what lies between the first and second `"` (to
/// the end when there is no second), empty when there is no `"` at all.
pub open spec fn second_quoted_field(l: Seq<char>) -> Seq<char> {
    let q = index_of(l, '"', 0);
    if q < 0 || q >= l.len() {
        Seq::empty()
    } else {
        let r = l.subrange(q + 1, l.len() as int);
        let e = index_of(r, '"', 0);
        if e < 0 || e > r.len() {
            Seq::empty()
        } else {
            r.subrange(0, e)
        }
    }
}

/// The value of the first `protocol = …` line at or after `k`, else empty.
pub open spec fn protocol_awk_from(ls: Seq<Seq<char>>, k: int) -> Seq<char>
    decreases ls.len() - k,
{
    if k < 0 || k >= ls.len() {
        Seq::empty()
    } else if is_protocol_line(ls[k]) {
        second_quoted_field(ls[k])
    } else {
        protocol_awk_from(ls, k + 1)
    }
}

/// `awk -F'"' '/^[[:space:]]*protocol[[:space:]]*=/ {print $2; exit}'`.
pub open spec fn parse_protocol_awk_spec(text: Seq<char>) -> Seq<char> {
    protocol_awk_from(lines(text), 0)
}

proof fn lemma_index_of_range(s: Seq<char>, c: char, i: int)
    requires
        0 <= i <= s.len(),
    ensures
        i <= index_of(s, c, i) <= s.len(),
    decreases s.len() - i,
{
    if i < s.len() && s[i] != c {
        lemma_index_of_range(s, c, i + 1);
    }
}

fn is_protocol_line_exec(l: &Vec<char>) -> (r: bool)
    ensures
        r == is_protocol_line(l@),
{
    let a = skip_blank_exec(l, 0);
    if l.len() - a < 8 {
        return false;
    }
    let word = sub_chars(l, a, a + 8);
    if !chars_eq_str(&word, "protocol") {
        return false;
    }
    let b = skip_blank_exec(l, a + 8);
    b < l.len() && l[b] == '='
}

fn second_quoted_field_exec(l: &Vec<char>) -> (out: Vec<char>)
    ensures
        out@ == second_quoted_field(l@),
{
    let q = find_char(l, '"');
    proof {
        lemma_index_of_range(l@, '"', 0);
    }
    if q >= l.len() {
        return Vec::new();
    }
    let r = sub_chars(l, q + 1, l.len());
    let e = find_char(&r, '"');
    proof {
        lemma_index_of_range(r@, '"', 0);
    }
    sub_chars(&r, 0, e)
}

/// lib.sh's `protocol` recipe: the value between the quotes of the first line
/// that assigns `protocol` (leading `[[:space:]]` allowed, `protocol` as a
/// whole key), and empty when there is none or it is unquoted.
pub fn parse_protocol_awk(text: &str) -> (s: String)
    ensures
        s@ == parse_protocol_awk_spec(text@),
{
    let ls = split_lines(&str_chars(text));
    let mut k: usize = 0;
    while k < ls.len()
        invariant
            views(ls@) == lines(text@),
            k <= ls@.len(),
            protocol_awk_from(views(ls@), 0) == protocol_awk_from(views(ls@), k as int),
        decreases ls.len() - k,
    {
        assert(views(ls@)[k as int] == ls@[k as int]@);
        if is_protocol_line_exec(&ls[k]) {
            let v = second_quoted_field_exec(&ls[k]);
            return chars_to_string(&v);
        }
        k = k + 1;
    }
    String::new()
}

/// The row for a config this run did not write: `info` when its protocol is
/// already `alvr`, else setup.sh's "not overwriting" `warn`, verbatim.
pub open spec fn existing_config_row_spec(protocol: Seq<char>, toml: Seq<char>) -> (Severity, Seq<char>) {
    if protocol == "alvr"@ {
        (Severity::Info, "config present: "@ + toml + " (protocol=alvr)"@)
    } else {
        (
            Severity::Warn,
            "config present with protocol='"@ + protocol + "' — the demo needs protocol = \"alvr\"; edit "@
                + toml + " yourself (not overwriting)"@,
        )
    }
}

pub fn existing_config_row(protocol: &str, toml: &str) -> (r: (Severity, String))
    ensures
        (r.0, r.1@) == existing_config_row_spec(protocol@, toml@),
{
    if chars_eq_str(&str_chars(protocol), "alvr") {
        let mut s = String::from_str("config present: ");
        s.append(toml);
        s.append(" (protocol=alvr)");
        (Severity::Info, s)
    } else {
        let mut s = String::from_str("config present with protocol='");
        s.append(protocol);
        s.append("' — the demo needs protocol = \"alvr\"; edit ");
        s.append(toml);
        s.append(" yourself (not overwriting)");
        (Severity::Warn, s)
    }
}

/// The row after the config was created: `wrote …`, or `would write …` when
/// the creation was only planned.
pub open spec fn config_written_row_spec(dry_run: bool, toml: Seq<char>) -> (Severity, Seq<char>) {
    if dry_run {
        (Severity::Info, "would write "@ + toml + " (protocol=alvr, 42 Mbps, encoder_process=auto)"@)
    } else {
        (Severity::Success, "wrote "@ + toml + " (protocol=alvr, 42 Mbps, encoder_process=auto)"@)
    }
}

pub fn config_written_row(dry_run: bool, toml: &str) -> (r: (Severity, String))
    ensures
        (r.0, r.1@) == config_written_row_spec(dry_run, toml@),
{
    let mut s = if dry_run {
        String::from_str("would write ")
    } else {
        String::from_str("wrote ")
    };
    s.append(toml);
    s.append(" (protocol=alvr, 42 Mbps, encoder_process=auto)");
    if dry_run {
        (Severity::Info, s)
    } else {
        (Severity::Success, s)
    }
}

/// The note about the embedded ALVR core's `session.json`.
pub fn alvr_session_note(oxr_appsup: &str) -> (s: String)
    ensures
        s@ == "note: the embedded ALVR core keeps its session.json under '"@ + oxr_appsup@
            + "/alvr/' — auto-created on first run, LAN clients auto-trusted"@,
{
    let mut s = String::from_str("note: the embedded ALVR core keeps its session.json under '");
    s.append(oxr_appsup);
    s.append("/alvr/' — auto-created on first run, LAN clients auto-trusted");
    s
}

/// Replaces `ok "submodules ready"` under `--dry-run`.
pub const SUBMODULES_WOULD_INIT_INFO: &'static str =
    "would initialize submodules (nothing was fetched under --dry-run)";

/// Replaces the patch-set `ok` row under `--dry-run`.
pub const PATCHSET_WOULD_CHECKOUT_INFO: &'static str = "would check out the ALVR oxrsys patch set (branch oxrsys-v20.14.1; nothing was fetched under --dry-run)";

/// Replaces the extraction `ok` row under `--dry-run`.
pub const DXMT_WOULD_EXTRACT_INFO: &'static str =
    "would extract ext/dxmt-artifacts and write the provenance marker";

pub const SUBMODULES_READY: &'static str = "submodules ready";

pub const OPENVR_MISSING: &'static str =
    "ALVR openvr submodule did not materialize — check network/auth and re-run setup";

pub const PATCHSET_PRESENT: &'static str =
    "ALVR checkout carries the oxrsys patch set (branch oxrsys-v20.14.1)";

/// A postcondition check's outcome: the `ok` row when it holds, the
/// future-tense `info` when it fails only because a dry run planned the work,
/// else the `die`.
#[derive(Debug, Clone, PartialEq, Eq)]
pub enum Postcondition {
    Holds,
    Planned,
    Failed,
}

/// A dry run may never claim a state it only planned, and a real run never
/// gets a planned row.
pub fn postcondition(holds: bool, dry_run: bool) -> (p: Postcondition)
    ensures
        holds ==> p == Postcondition::Holds,
        !holds && dry_run ==> p == Postcondition::Planned,
        !holds && !dry_run ==> p == Postcondition::Failed,
{
    if holds {
        Postcondition::Holds
    } else if dry_run {
        Postcondition::Planned
    } else {
        Postcondition::Failed
    }
}

/// The ALVR checkout carries the oxrsys patch set when `connection.rs`
/// mentions `is_streaming_nonblocking`.
pub fn patchset_present(connection_rs: &str) -> (r: bool)
    ensures
        r == contains_str(connection_rs@, "is_streaming_nonblocking"@),
{
    str_contains(connection_rs, "is_streaming_nonblocking")
}

/// The die when the ALVR submodule lacks the oxrsys patches.
pub fn patchset_missing_message(root: &str) -> (s: String)
    ensures
        s@ == "ALVR submodule is missing the oxrsys patches — run: git -C \""@ + root@
            + "\" submodule update --checkout ext/ALVR"@,
{
    let mut s = String::from_str("ALVR submodule is missing the oxrsys patches — run: git -C \"");
    s.append(root);
    s.append("\" submodule update --checkout ext/ALVR");
    s
}

/// The warn for a Goldberg dll whose hash is not the pinned one: it is kept.
pub fn goldberg_kept_warn(gbe: &str) -> (s: String)
    ensures
        s@ == "Goldberg dll present with a non-pinned hash — keeping it (delete "@ + gbe@
            + " to re-fetch the pinned build)"@,
{
    let mut s = String::from_str("Goldberg dll present with a non-pinned hash — keeping it (delete ");
    s.append(gbe);
    s.append(" to re-fetch the pinned build)");
    s
}

/// The pinned Goldberg dll is (re-)downloaded unless a present file has a
/// non-pinned hash, which is kept, never silently replaced.
pub fn goldberg_fetch_needed(present: bool, hash_matches: bool) -> (r: bool)
    ensures
        r == !(present && !hash_matches),
{
    !(present && !hash_matches)
}

/// The extraction row: `ok` only when the files are there on a real run,
/// the planned `info` otherwise; `None` when the extraction failed outright.
pub fn dxmt_extract_row(extracted_ok: bool, dry_run: bool) -> (r: Option<(Severity, &'static str)>)
    ensures
        !extracted_ok && !dry_run ==> r is None,
        extracted_ok && !dry_run ==> (r matches Some((sev, t)) && sev == Severity::Success && t@
            == "extracted ext/dxmt-artifacts (provenance marker written)"@),
        dry_run ==> (r matches Some((sev, t)) && sev == Severity::Info && t@
            == DXMT_WOULD_EXTRACT_INFO@),
{
    if extracted_ok && !dry_run {
        Some((Severity::Success, "extracted ext/dxmt-artifacts (provenance marker written)"))
    } else if dry_run {
        Some((Severity::Info, DXMT_WOULD_EXTRACT_INFO))
    } else {
        None
    }
}

/// The die when the extracted artifacts are incomplete.
pub fn dxmt_incomplete_message(dxmt_art: &str) -> (s: String)
    ensures
        s@ == "extracted dxmt-artifacts are incomplete — delete "@ + dxmt_art@
            + " and re-run setup"@,
{
    let mut s = String::from_str("extracted dxmt-artifacts are incomplete — delete ");
    s.append(dxmt_art);
    s.append(" and re-run setup");
    s
}

/// The game check's first decision: skipped entirely without `--bottle` or
/// `--bs-dir`.
pub const GAME_CHECK_SKIPPED: &'static str =
    "Beat Saber check skipped (no --bottle/--bs-dir given); ./demo.sh doctor will verify it";

/// The game check's rows once it runs: found, or the warn plus the download
/// instructions with the contract's depot command.
pub fn game_rows(found: bool, bs_dir: &str, depot_command: &str) -> (rows: Vec<(Severity, String)>)
    ensures
        found ==> rows@.len() == 1 && rows@[0].0 == Severity::Success && rows@[0].1@
            == "Beat Saber found at "@ + bs_dir@,
        !found ==> rows@.len() == 3 && rows@[0].0 == Severity::Warn && rows@[0].1@
            == "Beat Saber 1.29.4 not found at "@ + bs_dir@ && rows@[1].0 == Severity::Info
            && rows@[1].1@ == "download it with your Steam account (owning Beat Saber):"@
            && rows@[2].0 == Severity::Info && rows@[2].1@ == "  "@ + depot_command@,
{
    let mut rows: Vec<(Severity, String)> = Vec::new();
    if found {
        let mut s = String::from_str("Beat Saber found at ");
        s.append(bs_dir);
        rows.push((Severity::Success, s));
    } else {
        let mut s = String::from_str("Beat Saber 1.29.4 not found at ");
        s.append(bs_dir);
        rows.push((Severity::Warn, s));
        rows.push(
            (Severity::Info, String::from_str("download it with your Steam account (owning Beat Saber):")),
        );
        let mut d = String::from_str("  ");
        d.append(depot_command);
        rows.push((Severity::Info, d));
    }
    rows
}

/// `git -C <dir> <rest...>`: a submodule command's arguments.
pub fn git_submodule_args(dir: &str, rest: &Vec<&str>) -> (v: Vec<String>)
    ensures
        strings_view(v@) == seq!["-C"@, dir@] + strs_view(rest@),
{
    let mut v: Vec<String> = Vec::new();
    v.push(String::from_str("-C"));
    v.push(String::from_str(dir));
    assert(strings_view(v@) =~= seq!["-C"@, dir@]);
    push_strs(&mut v, rest);
    v
}

pub const INITIALIZING_SUBMODULES: &'static str =
    "initializing submodules (first fetch is large: ALVR + the wine source tree)...";

pub const DXMT_ALREADY_PRESENT: &'static str =
    "already present: dxmt-artifacts (sha256 marker matches)";

pub const EXTRACTION_FAILED: &'static str = "extraction failed";

/// setup.sh's three submodule commands, in order: the top-level `ext/`
/// submodules in the checkout (`root`), wineopenxr's own without blobs
/// (`woxr`), and ALVR's `openvr` (`alvr`).
pub fn submodule_commands(root: &str, woxr: &str, alvr: &str) -> (v: Vec<Vec<String>>)
    ensures
        v@.len() == 3,
        strings_view(v@[0]@) == seq!["-C"@, root@, "submodule"@, "update"@, "--init"@, "ext/oxrsys"@,
            "ext/wineopenxr"@, "ext/ALVR"@],
        strings_view(v@[1]@) == seq!["-C"@, woxr@, "submodule"@, "update"@, "--init"@,
            "--filter=blob:none"@],
        strings_view(v@[2]@) == seq!["-C"@, alvr@, "submodule"@, "update"@, "--init"@],
{
    let top = git_submodule_args(
        root,
        &vec!["submodule", "update", "--init", "ext/oxrsys", "ext/wineopenxr", "ext/ALVR"],
    );
    let wine = git_submodule_args(woxr, &vec!["submodule", "update", "--init", "--filter=blob:none"]);
    let openvr = git_submodule_args(alvr, &vec!["submodule", "update", "--init"]);
    assert(strings_view(top@) =~= seq!["-C"@, root@, "submodule"@, "update"@, "--init"@, "ext/oxrsys"@,
        "ext/wineopenxr"@, "ext/ALVR"@]);
    assert(strings_view(wine@) =~= seq!["-C"@, woxr@, "submodule"@, "update"@, "--init"@,
        "--filter=blob:none"@]);
    assert(strings_view(openvr@) =~= seq!["-C"@, alvr@, "submodule"@, "update"@, "--init"@]);
    vec![top, wine, openvr]
}

/// How setup's game check proceeds.
#[derive(Debug, Clone, Copy, PartialEq, Eq, Structural)]
pub enum GameCheck {
    /// Neither `--bottle` nor `--bs-dir`: one `info` row
    /// ([`GAME_CHECK_SKIPPED`]), nothing probed.
    Skip,
    /// A bottle was named: it must exist (`require_bottle`'s die) before the
    /// game directory is probed.
    RequireBottleThenProbe,
    /// Only `--bs-dir`: probe it directly.
    Probe,
}

pub fn game_check(bottle_named: bool, bs_dir_given: bool) -> (g: GameCheck)
    ensures
        g == (if !bottle_named && !bs_dir_given {
            GameCheck::Skip
        } else if bottle_named {
            GameCheck::RequireBottleThenProbe
        } else {
            GameCheck::Probe
        }),
{
    if !bottle_named && !bs_dir_given {
        GameCheck::Skip
    } else if bottle_named {
        GameCheck::RequireBottleThenProbe
    } else {
        GameCheck::Probe
    }
}

} // verus!
