//! `demo.sh install`'s verified parts: the `system.reg` test that decides
//! whether the bottle's OpenXR runtime is registered, the partial-backup
//! names a crashed install leaves behind, and the rows and dies the four
//! layers print.

use vstd::prelude::*;

pub mod flow;

use crate::events::Severity;
use crate::text::{
    chars_eq, find_from, lines, occurs_at, split_lines, str_chars, strings_view, sub_chars, views,
};

verus! {

/// The prefix of a stock-DXMT backup still being copied; never trusted as
/// the backup, and swept by the next install.
pub const PARTIAL_BACKUP_PREFIX: &'static str = "dxmt.stock-backup.partial-";

/// The three literals the registry line must hold, in order.
pub const REGISTRY_NEEDLES: [&'static str; 3] = ["ActiveRuntime", "openxr", "wineopenxr64.json"];

/// The first occurrence of `needle` in `hay` at or after `from`.
pub open spec fn first_occurrence(hay: Seq<char>, needle: Seq<char>, from: int) -> Option<int> {
    if exists|k: int| from <= k && occurs_at(hay, needle, k) {
        Some(choose|k: int| from <= k && occurs_at(hay, needle, k) && forall|j: int|
            from <= j < k ==> !occurs_at(hay, needle, j))
    } else {
        None
    }
}

/// `ActiveRuntime`, then `openxr`, then `wineopenxr64.json` occur in `line`,
/// each searched for after the end of the previous one's first occurrence.
#[verifier::opaque]
pub open spec fn registers_runtime(line: Seq<char>) -> bool {
    let a = REGISTRY_NEEDLES[0]@;
    let b = REGISTRY_NEEDLES[1]@;
    let c = REGISTRY_NEEDLES[2]@;
    match first_occurrence(line, a, 0) {
        None => false,
        Some(i) => match first_occurrence(line, b, i + a.len()) {
            None => false,
            Some(k) => first_occurrence(line, c, k + b.len()) is Some,
        },
    }
}

/// Some line of `system.reg` holds `ActiveRuntime`, then `openxr`, then
/// `wineopenxr64.json`, in that order.
pub open spec fn registry_current_spec(system_reg: Seq<char>) -> bool {
    exists|k: int| 0 <= k < lines(system_reg).len() && registers_runtime(#[trigger] lines(system_reg)[k])
}

proof fn lemma_first_occurrence(hay: Seq<char>, needle: Seq<char>, from: int, found: Option<int>)
    requires
        match found {
            Some(i) => from <= i && occurs_at(hay, needle, i) && forall|k: int|
                from <= k < i ==> !occurs_at(hay, needle, k),
            None => forall|k: int| from <= k ==> !occurs_at(hay, needle, k),
        },
    ensures
        first_occurrence(hay, needle, from) == found,
{
    match found {
        Some(i) => {
            assert(exists|k: int| from <= k && occurs_at(hay, needle, k));
            let c = choose|k: int| from <= k && occurs_at(hay, needle, k) && forall|j: int|
                from <= j < k ==> !occurs_at(hay, needle, j);
            assert(from <= i && occurs_at(hay, needle, i) && forall|j: int|
                from <= j < i ==> !occurs_at(hay, needle, j));
            if c < i {
                assert(!occurs_at(hay, needle, c));
            } else if c > i {
                assert(!occurs_at(hay, needle, i));
            }
        },
        None => {},
    }
}

/// Whether `line` holds the three registry literals in order.
fn line_registers_runtime(line: &Vec<char>) -> (r: bool)
    ensures
        r == registers_runtime(line@),
{
    reveal(registers_runtime);
    let n0 = str_chars(REGISTRY_NEEDLES[0]);
    let n1 = str_chars(REGISTRY_NEEDLES[1]);
    let n2 = str_chars(REGISTRY_NEEDLES[2]);
    let f0 = find_from(line, &n0, 0);
    proof {
        lemma_first_occurrence(line@, n0@, 0, match f0 {
            Some(i) => Some(i as int),
            None => None,
        });
    }
    let p0 = match f0 {
        None => return false,
        Some(i) => i,
    };
    if n0.len() > line.len() - p0 {
        return false;
    }
    let f1 = find_from(line, &n1, p0 + n0.len());
    proof {
        lemma_first_occurrence(line@, n1@, p0 + n0@.len(), match f1 {
            Some(i) => Some(i as int),
            None => None,
        });
    }
    let p1 = match f1 {
        None => return false,
        Some(i) => i,
    };
    if n1.len() > line.len() - p1 {
        return false;
    }
    let f2 = find_from(line, &n2, p1 + n1.len());
    proof {
        lemma_first_occurrence(line@, n2@, p1 + n1@.len(), match f2 {
            Some(i) => Some(i as int),
            None => None,
        });
    }
    f2.is_some()
}

/// The bottle's `system.reg` already registers wineopenxr as the active
/// OpenXR runtime: some line holds the three literals in order.
pub fn registry_current(system_reg: &str) -> (r: bool)
    ensures
        r == registry_current_spec(system_reg@),
{
    let ls = split_lines(&str_chars(system_reg));
    let mut k: usize = 0;
    while k < ls.len()
        invariant
            views(ls@) == lines(system_reg@),
            k <= ls@.len(),
            forall|j: int| 0 <= j < k ==> !registers_runtime(#[trigger] views(ls@)[j]),
        decreases ls.len() - k,
    {
        assert(views(ls@)[k as int] == ls@[k as int]@);
        if line_registers_runtime(&ls[k]) {
            return true;
        }
        k = k + 1;
    }
    proof {
        if registry_current_spec(system_reg@) {
            let j = choose|j: int| 0 <= j < lines(system_reg@).len() && registers_runtime(
                #[trigger] lines(system_reg@)[j],
            );
            assert(!registers_runtime(views(ls@)[j]));
        }
    }
    false
}

/// A directory entry named like a partial backup.
pub fn is_partial_backup_name(name: &str) -> (r: bool)
    ensures
        r == (PARTIAL_BACKUP_PREFIX@.len() <= name@.len() && name@.subrange(
            0,
            PARTIAL_BACKUP_PREFIX@.len() as int,
        ) == PARTIAL_BACKUP_PREFIX@),
{
    let n = str_chars(name);
    let p = str_chars(PARTIAL_BACKUP_PREFIX);
    if p.len() > n.len() {
        return false;
    }
    let head = sub_chars(&n, 0, p.len());
    chars_eq(&head, &p)
}

/// One install row: `unchanged: <dst>` when the bytes already matched,
/// else `installed: <dst>` (`would install: <dst>` under `--dry-run`).
pub open spec fn install_row_spec(copied: bool, dry_run: bool, dst: Seq<char>) -> (Severity, Seq<char>) {
    if !copied {
        (Severity::Info, "unchanged: "@ + dst)
    } else if dry_run {
        (Severity::Success, "would install: "@ + dst)
    } else {
        (Severity::Success, "installed: "@ + dst)
    }
}

pub fn install_row(copied: bool, dry_run: bool, dst: &str) -> (r: (Severity, String))
    ensures
        (r.0, r.1@) == install_row_spec(copied, dry_run, dst@),
{
    if !copied {
        let mut s = String::from_str("unchanged: ");
        s.append(dst);
        (Severity::Info, s)
    } else {
        let mut s = if dry_run {
            String::from_str("would install: ")
        } else {
            String::from_str("installed: ")
        };
        s.append(dst);
        (Severity::Success, s)
    }
}

/// `die "missing build output <f> — ./demo.sh build first"`.
pub fn missing_build_output_message(path: &str) -> (s: String)
    ensures
        s@ == "missing build output "@ + path@ + " — ./demo.sh build first"@,
{
    let mut s = String::from_str("missing build output ");
    s.append(path);
    s.append(" — ./demo.sh build first");
    s
}

pub const CROSSOVER_NOT_FOUND: &'static str = "CrossOver.app not found";

pub const DXMT_ARTIFACTS_INCOMPLETE: &'static str = "ext/dxmt-artifacts missing or incomplete — ./demo.sh setup first (never half-applies the overlay)";

/// `die "copy failed: <src> -> <dst>"`, after the io cause.
pub fn copy_failed_message(src: &str, dst: &str) -> (s: String)
    ensures
        s@ == "copy failed: "@ + src@ + " -> "@ + dst@,
{
    let mut s = String::from_str("copy failed: ");
    s.append(src);
    s.append(" -> ");
    s.append(dst);
    s
}

/// What the stock DXMT backup step reports.
#[derive(Debug, Clone, Copy, PartialEq, Eq, Structural)]
pub enum BackupState {
    /// The backup directory exists and holds files.
    Present,
    /// The backup directory exists but is empty: the stock copy is gone.
    Empty,
    /// No backup yet: one is made from the live overlay.
    Missing,
}

/// The backup row for a backup that already exists: `info` when present,
/// the `warn` that leaves an empty one alone.
pub open spec fn existing_backup_row_spec(state: BackupState, backup: Seq<char>) -> Option<(Severity, Seq<char>)> {
    match state {
        BackupState::Missing => None,
        BackupState::Present => Some((Severity::Info, "stock DXMT backup already exists"@)),
        BackupState::Empty => Some(
            (
                Severity::Warn,
                "stock DXMT backup "@ + backup
                    + " is empty — the stock copy is gone; reinstall CrossOver to restore it (left alone: re-copying now would back up the fork)"@,
            ),
        ),
    }
}

pub fn existing_backup_row(state: BackupState, backup: &str) -> (r: Option<(Severity, String)>)
    ensures
        match r {
            Some((sev, t)) => existing_backup_row_spec(state, backup@) == Some((sev, t@)),
            None => existing_backup_row_spec(state, backup@) is None,
        },
{
    match state {
        BackupState::Missing => None,
        BackupState::Present => Some(
            (Severity::Info, String::from_str("stock DXMT backup already exists")),
        ),
        BackupState::Empty => {
            let mut s = String::from_str("stock DXMT backup ");
            s.append(backup);
            s.append(
                " is empty — the stock copy is gone; reinstall CrossOver to restore it (left alone: re-copying now would back up the fork)",
            );
            Some((Severity::Warn, s))
        },
    }
}

/// The row after a backup was made (or planned under `--dry-run`).
pub open spec fn backed_up_row_spec(dry_run: bool, backup: Seq<char>) -> (Severity, Seq<char>) {
    if dry_run {
        (Severity::Info, "would back up stock DXMT -> "@ + backup)
    } else {
        (Severity::Success, "backed up stock DXMT -> "@ + backup)
    }
}

pub fn backed_up_row(dry_run: bool, backup: &str) -> (r: (Severity, String))
    ensures
        (r.0, r.1@) == backed_up_row_spec(dry_run, backup@),
{
    if dry_run {
        let mut s = String::from_str("would back up stock DXMT -> ");
        s.append(backup);
        (Severity::Info, s)
    } else {
        let mut s = String::from_str("backed up stock DXMT -> ");
        s.append(backup);
        (Severity::Success, s)
    }
}

/// What becomes of a finished copy of the stock overlay: renamed into place
/// only when the copy exists and nothing took the backup's name meanwhile.
#[derive(Debug, Clone, Copy, PartialEq, Eq, Structural)]
pub enum BackupCommit {
    /// `mv <partial> <backup>`: the backup exists only for a finished copy.
    Commit,
    /// Another writer captured stock meanwhile: drop the partial copy.
    Discard,
    /// Nothing was copied (a dry run planned the copy): nothing to rename.
    Nothing,
}

pub fn backup_commit(partial_is_dir: bool, backup_exists: bool) -> (c: BackupCommit)
    ensures
        c == (if !partial_is_dir {
            BackupCommit::Nothing
        } else if backup_exists {
            BackupCommit::Discard
        } else {
            BackupCommit::Commit
        }),
{
    if !partial_is_dir {
        BackupCommit::Nothing
    } else if backup_exists {
        BackupCommit::Discard
    } else {
        BackupCommit::Commit
    }
}

/// The warn for a partial capture that could not be removed.
pub fn partial_removal_warn(partial: &str, cause: &str) -> (s: String)
    ensures
        s@ == "could not remove the partial DXMT backup "@ + partial@ + " ("@ + cause@
            + ") — it is never trusted as the backup, and the next install sweeps it"@,
{
    let mut s = String::from_str("could not remove the partial DXMT backup ");
    s.append(partial);
    s.append(" (");
    s.append(cause);
    s.append(") — it is never trusted as the backup, and the next install sweeps it");
    s
}

/// The registry key the bottle's OpenXR loader reads its active runtime from.
pub const OPENXR_REGISTRY_KEY: &'static str = "HKLM\\Software\\Khronos\\OpenXR\\1";

/// The manifest path the key points at, as the bottle sees it.
pub const OPENXR_MANIFEST_WIN: &'static str = "C:\\openxr\\wineopenxr64.json";

/// install.sh's `wine --bottle <name> --no-update reg add …` arguments and the
/// two variables it runs under.
pub fn reg_add_command(bottle_name: &str, prefix: &str) -> (r: (Vec<String>, Vec<(String, String)>))
    ensures
        strings_view(r.0@) == seq![
            "--bottle"@,
            bottle_name@,
            "--no-update"@,
            "reg"@,
            "add"@,
            OPENXR_REGISTRY_KEY@,
            "/v"@,
            "ActiveRuntime"@,
            "/t"@,
            "REG_SZ"@,
            "/d"@,
            OPENXR_MANIFEST_WIN@,
            "/f"@,
        ],
        r.1@.len() == 2,
        r.1@[0].0@ == "WINEPREFIX"@ && r.1@[0].1@ == prefix@,
        r.1@[1].0@ == "CX_BOTTLE"@ && r.1@[1].1@ == bottle_name@,
{
    let mut args: Vec<String> = Vec::new();
    args.push(String::from_str("--bottle"));
    args.push(String::from_str(bottle_name));
    args.push(String::from_str("--no-update"));
    args.push(String::from_str("reg"));
    args.push(String::from_str("add"));
    args.push(String::from_str(OPENXR_REGISTRY_KEY));
    args.push(String::from_str("/v"));
    args.push(String::from_str("ActiveRuntime"));
    args.push(String::from_str("/t"));
    args.push(String::from_str("REG_SZ"));
    args.push(String::from_str("/d"));
    args.push(String::from_str(OPENXR_MANIFEST_WIN));
    args.push(String::from_str("/f"));
    let mut env: Vec<(String, String)> = Vec::new();
    env.push((String::from_str("WINEPREFIX"), String::from_str(prefix)));
    env.push((String::from_str("CX_BOTTLE"), String::from_str(bottle_name)));
    assert(strings_view(args@) =~= seq![
        "--bottle"@,
        bottle_name@,
        "--no-update"@,
        "reg"@,
        "add"@,
        OPENXR_REGISTRY_KEY@,
        "/v"@,
        "ActiveRuntime"@,
        "/t"@,
        "REG_SZ"@,
        "/d"@,
        OPENXR_MANIFEST_WIN@,
        "/f"@,
    ]);
    (args, env)
}

pub const REGISTRY_ALREADY_SET: &'static str = "registry ActiveRuntime already set";

pub const REGISTERING: &'static str =
    "registering wineopenxr as the bottle's OpenXR runtime (starts wine briefly)...";

pub const REG_ADD_FAILED: &'static str = "reg add failed";

pub const REGISTRY_FLUSH_PENDING: &'static str =
    "registry write not yet visible in system.reg (wine flushes lazily) — re-run doctor later";

/// The rows after a successful `reg add`: a dry run ran nothing and says so;
/// a real one warns first when `system.reg` never showed the write.
pub open spec fn registered_rows_spec(dry_run: bool, flushed: bool) -> Seq<(Severity, Seq<char>)> {
    if dry_run {
        seq![(Severity::Info, "would register ActiveRuntime"@)]
    } else if flushed {
        seq![(Severity::Success, "ActiveRuntime registered"@)]
    } else {
        seq![(Severity::Warn, REGISTRY_FLUSH_PENDING@), (Severity::Success, "ActiveRuntime registered"@)]
    }
}

pub fn registered_rows(dry_run: bool, flushed: bool) -> (rows: Vec<(Severity, &'static str)>)
    ensures
        rows@.map_values(|r: (Severity, &'static str)| (r.0, r.1@)) == registered_rows_spec(dry_run, flushed),
{
    let mut rows: Vec<(Severity, &'static str)> = Vec::new();
    if dry_run {
        rows.push((Severity::Info, "would register ActiveRuntime"));
    } else {
        if !flushed {
            rows.push((Severity::Warn, REGISTRY_FLUSH_PENDING));
        }
        rows.push((Severity::Success, "ActiveRuntime registered"));
    }
    assert(rows@.map_values(|r: (Severity, &'static str)| (r.0, r.1@)) =~= registered_rows_spec(
        dry_run,
        flushed,
    ));
    rows
}

/// How the privileged host-manifest write ended.
#[derive(Debug, Clone, Copy, PartialEq, Eq, Structural)]
pub enum HostWrite {
    /// Already current under the prompt: nothing written.
    Skipped,
    Written,
    /// A dry run planned it and prompted for nothing.
    Planned,
}

/// The row layer 4 ends with.
pub open spec fn host_registration_row_spec(w: HostWrite) -> (Severity, Seq<char>) {
    match w {
        HostWrite::Skipped => (Severity::Info, "host registration already current"@),
        HostWrite::Written => (Severity::Success, "host registration written"@),
        HostWrite::Planned => (Severity::Info, "would write host registration"@),
    }
}

pub fn host_registration_row(w: HostWrite) -> (r: (Severity, &'static str))
    ensures
        (r.0, r.1@) == host_registration_row_spec(w),
{
    match w {
        HostWrite::Skipped => (Severity::Info, "host registration already current"),
        HostWrite::Written => (Severity::Success, "host registration written"),
        HostWrite::Planned => (Severity::Info, "would write host registration"),
    }
}

/// The `writing <path> (needs sudo)...` row before the privileged write.
pub fn host_write_notice(host_xr_json: &str) -> (s: String)
    ensures
        s@ == "writing "@ + host_xr_json@ + " (needs sudo)..."@,
{
    let mut s = String::from_str("writing ");
    s.append(host_xr_json);
    s.append(" (needs sudo)...");
    s
}

/// The four layers' section titles, in order.
pub fn install_sections(cx: &str, bottle_name: &str, host_xr_json: &str) -> (v: Vec<String>)
    ensures
        strings_view(v@) == seq![
            "global DXMT overlay ("@ + cx@ + "/lib/dxmt)"@,
            "global wineopenxr ("@ + cx@ + "/lib/wine)"@,
            "bottle '"@ + bottle_name@ + "'"@,
            "host OpenXR registration ("@ + host_xr_json@ + ")"@,
        ],
{
    let mut a = String::from_str("global DXMT overlay (");
    a.append(cx);
    a.append("/lib/dxmt)");
    let mut b = String::from_str("global wineopenxr (");
    b.append(cx);
    b.append("/lib/wine)");
    let mut c = String::from_str("bottle '");
    c.append(bottle_name);
    c.append("'");
    let mut d = String::from_str("host OpenXR registration (");
    d.append(host_xr_json);
    d.append(")");
    let mut v: Vec<String> = Vec::new();
    v.push(a);
    v.push(b);
    v.push(c);
    v.push(d);
    assert(strings_view(v@) =~= seq![
        "global DXMT overlay ("@ + cx@ + "/lib/dxmt)"@,
        "global wineopenxr ("@ + cx@ + "/lib/wine)"@,
        "bottle '"@ + bottle_name@ + "'"@,
        "host OpenXR registration ("@ + host_xr_json@ + ")"@,
    ]);
    v
}

} // verus!
