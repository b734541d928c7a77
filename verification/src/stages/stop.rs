//! `demo.sh stop`'s verified parts: the survivor, port, reap and audio rows
//! stop.sh prints, and the listener list its `lsof | awk | sort -u` pipeline
//! produces.

use vstd::prelude::*;

use crate::events::Severity;
use crate::paths::{file_name, path_file_name, path_starts_with, path_starts_with_spec};
use crate::process::ProcInfo;
use crate::stages::run::actions::{format_survivors as format_survivors_with, survivors_text};
use crate::text::{
    captured, lemma_select_kept, select, strings_view, strip_trailing_newlines, chars_to_string, decimal, lines, push_chars, push_str, split_lines, split_words, str_chars,
    u64_to_string, views, words,
};

verus! {

/// The substring `pgrep -f 'Beat Saber.exe'` matches on argv, and the name a
/// survivor with no file name is shown under.
pub const BEAT_SABER_EXE_SUFFIX: &'static str = "Beat Saber.exe";

/// The exact `lsof` invocation stop.sh uses.
pub const LSOF_ARGS: [&'static str; 3] = ["-nP", "-iUDP:9944", "-iTCP:9943"];

/// The staged encoder helper's file name.
pub const HELPER_BASENAME: &'static str = "oxrsys-encoder-helper";

/// stop.sh's not-found text for the encoder-helper reap.
pub const NO_LEFTOVER_HELPER: &'static str = "no leftover encoder helper";

/// `"<pid> <exe-basename> "` per survivor — the shape of
/// `pgrep -lf 'Beat Saber.exe' | tr '\n' ' '`.
pub fn format_survivors(procs: &Vec<ProcInfo>) -> (s: String)
    ensures
        s@ == survivors_text(procs@, BEAT_SABER_EXE_SUFFIX@),
{
    format_survivors_with(procs, BEAT_SABER_EXE_SUFFIX)
}

/// stop.sh's survivor row: `ok "game and wineserver down"` when no Beat Saber
/// process is up, else a `warn` naming them.
pub fn survivors_row(survivors: &Vec<ProcInfo>) -> (r: (Severity, String))
    ensures
        survivors@.len() == 0 ==> r.0 == Severity::Success && r.1@ == "game and wineserver down"@,
        survivors@.len() > 0 ==> r.0 == Severity::Warn && r.1@ == "Beat Saber processes survived: "@
            + survivors_text(survivors@, BEAT_SABER_EXE_SUFFIX@),
{
    if survivors.len() == 0 {
        (Severity::Success, String::from_str("game and wineserver down"))
    } else {
        let mut s = String::from_str("Beat Saber processes survived: ");
        let listed = format_survivors(survivors);
        s.append(listed.as_str());
        (Severity::Warn, s)
    }
}

// ── the streaming-port listeners ────────────────────────────────────────────

/// Strict lexicographic order on characters — `String`'s order, since UTF-8
/// byte order is code-point order.
pub open spec fn lex_lt(a: Seq<char>, b: Seq<char>) -> bool
    decreases a.len(),
{
    if a.len() == 0 {
        b.len() > 0
    } else if b.len() == 0 {
        false
    } else if (a[0] as int) < (b[0] as int) {
        true
    } else if a[0] == b[0] {
        lex_lt(a.drop_first(), b.drop_first())
    } else {
        false
    }
}

pub proof fn lemma_lex_irreflexive(a: Seq<char>)
    ensures
        !lex_lt(a, a),
    decreases a.len(),
{
    if a.len() > 0 {
        lemma_lex_irreflexive(a.drop_first());
    }
}

pub proof fn lemma_lex_transitive(a: Seq<char>, b: Seq<char>, c: Seq<char>)
    requires
        lex_lt(a, b),
        lex_lt(b, c),
    ensures
        lex_lt(a, c),
    decreases a.len(),
{
    if a.len() > 0 && b.len() > 0 && c.len() > 0 && a[0] == b[0] && b[0] == c[0] {
        lemma_lex_transitive(a.drop_first(), b.drop_first(), c.drop_first());
    }
}

pub proof fn lemma_lex_total(a: Seq<char>, b: Seq<char>)
    ensures
        a == b || lex_lt(a, b) || lex_lt(b, a),
    decreases a.len(),
{
    if a.len() > 0 && b.len() > 0 {
        if a[0] == b[0] {
            lemma_lex_total(a.drop_first(), b.drop_first());
            if a.drop_first() == b.drop_first() {
                assert(a =~= seq![a[0]] + a.drop_first());
                assert(b =~= seq![b[0]] + b.drop_first());
            }
        } else {
            assert((a[0] as int) != (b[0] as int));
        }
    } else if a.len() == 0 && b.len() == 0 {
        assert(a =~= b);
    }
}

/// `a < b` on character vectors.
pub fn chars_lt(a: &Vec<char>, b: &Vec<char>) -> (r: bool)
    ensures
        r == lex_lt(a@, b@),
{
    let mut i: usize = 0;
    assert(a@.skip(0) =~= a@);
    assert(b@.skip(0) =~= b@);
    while i < a.len() && i < b.len() && a[i] == b[i]
        invariant
            i <= a@.len(),
            i <= b@.len(),
            lex_lt(a@, b@) == lex_lt(a@.skip(i as int), b@.skip(i as int)),
        decreases a.len() - i,
    {
        proof {
            let sa = a@.skip(i as int);
            let sb = b@.skip(i as int);
            assert(sa.drop_first() =~= a@.skip(i + 1));
            assert(sb.drop_first() =~= b@.skip(i + 1));
        }
        i = i + 1;
    }
    proof {
        let sa = a@.skip(i as int);
        let sb = b@.skip(i as int);
        if i < a.len() && i < b.len() {
            assert(sa[0] == a@[i as int]);
            assert(sb[0] == b@[i as int]);
        }
    }
    if i >= a.len() {
        i < b.len()
    } else if i >= b.len() {
        false
    } else {
        a[i] < b[i]
    }
}

/// A sequence strictly increasing in `lex_lt` — sorted, no duplicates.
pub open spec fn strictly_sorted(rows: Seq<Seq<char>>) -> bool {
    forall|i: int, j: int| 0 <= i < j < rows.len() ==> lex_lt(#[trigger] rows[i], #[trigger] rows[j])
}

/// `COMMAND(PID)` for an `lsof` row with at least two fields.
pub open spec fn listener_row(l: Seq<char>) -> Option<Seq<char>> {
    let w = words(l);
    if w.len() >= 2 {
        Some(w[0] + "("@ + w[1] + ")"@)
    } else {
        None
    }
}

/// Every listener row of `lsof`'s output, header skipped.
pub open spec fn listener_rows(stdout: Seq<char>) -> Set<Seq<char>> {
    Set::new(
        |r: Seq<char>|
            exists|k: int|
                1 <= k < lines(stdout).len() && #[trigger] listener_row(lines(stdout)[k]) == Some(r),
    )
}

/// Each row followed by one space.
pub open spec fn spaced_rows(rows: Seq<Seq<char>>) -> Seq<char>
    decreases rows.len(),
{
    if rows.len() == 0 {
        Seq::empty()
    } else {
        spaced_rows(rows.drop_last()) + rows.last() + " "@
    }
}

/// stop.sh's `$STALE`: the listeners' `COMMAND(PID)` rows, deduplicated,
/// sorted, each followed by one space.
pub open spec fn stale_listeners_spec(stdout: Seq<char>, out: Seq<char>) -> bool {
    exists|rows: Seq<Seq<char>>|
        strictly_sorted(rows) && rows.to_set() == listener_rows(stdout) && out == spaced_rows(rows)
}

/// Insert `x` into the strictly sorted `rows`, keeping it strictly sorted;
/// nothing changes when `x` is already there.
fn insert_sorted(rows: &mut Vec<Vec<char>>, x: Vec<char>)
    requires
        strictly_sorted(views(old(rows)@)),
    ensures
        strictly_sorted(views(final(rows)@)),
        views(final(rows)@).to_set() == views(old(rows)@).to_set().insert(x@),
{
    let ghost before = views(rows@);
    let mut k: usize = 0;
    while k < rows.len() && chars_lt(&rows[k], &x)
        invariant
            k <= rows@.len(),
            views(rows@) == before,
            forall|j: int| 0 <= j < k ==> lex_lt(#[trigger] before[j], x@),
        decreases rows.len() - k,
    {
        assert(before[k as int] == rows@[k as int]@);
        k = k + 1;
    }
    if k < rows.len() && crate::text::chars_eq(&rows[k], &x) {
        assert(before[k as int] == x@);
        assert(before.to_set().insert(x@) =~= before.to_set());
        return;
    }
    proof {
        if k < before.len() {
            assert(before[k as int] == rows@[k as int]@);
            lemma_lex_total(before[k as int], x@);
            assert(lex_lt(x@, before[k as int]));
        }
    }
    rows.insert(k, x);
    proof {
        let after = views(rows@);
        assert(after =~= before.take(k as int).push(x@) + before.skip(k as int));
        assert forall|i: int, j: int| 0 <= i < j < after.len() implies lex_lt(
            #[trigger] after[i],
            #[trigger] after[j],
        ) by {
            if j < k {
                assert(after[i] == before[i] && after[j] == before[j]);
            } else if j == k {
                assert(after[i] == before[i]);
            } else if i < k {
                assert(after[i] == before[i] && after[j] == before[j - 1]);
                if j - 1 > k {
                    assert(lex_lt(before[k as int], before[j - 1]));
                    lemma_lex_transitive(x@, before[k as int], before[j - 1]);
                }
                lemma_lex_transitive(before[i], x@, before[j - 1]);
            } else if i == k {
                assert(after[j] == before[j - 1]);
                if j - 1 > k {
                    assert(lex_lt(before[k as int], before[j - 1]));
                    lemma_lex_transitive(x@, before[k as int], before[j - 1]);
                }
            } else {
                assert(after[i] == before[i - 1] && after[j] == before[j - 1]);
            }
        }
        assert forall|r: Seq<char>| after.to_set().contains(r) <==> before.to_set().insert(
            x@,
        ).contains(r) by {
            if after.to_set().contains(r) {
                let i = choose|i: int| 0 <= i < after.len() && after[i] == r;
                if i < k {
                    assert(before[i] == r);
                } else if i > k {
                    assert(before[i - 1] == r);
                }
            }
            if before.to_set().contains(r) {
                let i = choose|i: int| 0 <= i < before.len() && before[i] == r;
                if i < k {
                    assert(after[i] == r);
                } else {
                    assert(after[i + 1] == r);
                }
            }
            if r == x@ {
                assert(after[k as int] == r);
            }
        }
        assert(after.to_set() =~= before.to_set().insert(x@));
    }
}

/// The listeners' `COMMAND(PID)` rows, sorted and deduplicated, each
/// followed by one space — `lsof … | awk 'NR>1 {print $1"("$2")"}' | sort -u | tr '\n' ' '`.
pub fn stale_listeners_text(lsof_stdout: &str) -> (s: String)
    ensures
        stale_listeners_spec(lsof_stdout@, s@),
{
    let ls = split_lines(&str_chars(lsof_stdout));
    let ghost lv = views(ls@);
    let mut rows: Vec<Vec<char>> = Vec::new();
    let mut k: usize = 1;
    while k < ls.len()
        invariant
            lv == views(ls@),
            lv == lines(lsof_stdout@),
            1 <= k,
            k <= ls@.len() || ls@.len() == 0,
            strictly_sorted(views(rows@)),
            forall|r: Seq<char>|
                views(rows@).to_set().contains(r) <==> exists|j: int|
                    1 <= j < k && j < lv.len() && #[trigger] listener_row(lv[j]) == Some(r),
        decreases ls.len() - k,
    {
        let w = split_words(&ls[k]);
        proof {
            assert(lv[k as int] == ls@[k as int]@);
        }
        let ghost before = views(rows@);
        if w.len() >= 2 {
            let mut row: Vec<char> = Vec::new();
            push_chars(&mut row, &w[0]);
            push_str(&mut row, "(");
            push_chars(&mut row, &w[1]);
            push_str(&mut row, ")");
            proof {
                assert(views(w@)[0] == w@[0]@);
                assert(views(w@)[1] == w@[1]@);
                assert(listener_row(lv[k as int]) == Some(row@));
            }
            insert_sorted(&mut rows, row);
        }
        proof {
            assert forall|r: Seq<char>| views(rows@).to_set().contains(r) <==> exists|j: int|
                1 <= j < k + 1 && j < lv.len() && #[trigger] listener_row(lv[j]) == Some(r) by {
                if exists|j: int| 1 <= j < k + 1 && j < lv.len() && #[trigger] listener_row(lv[j]) == Some(r) {
                    let j = choose|j: int| 1 <= j < k + 1 && j < lv.len() && #[trigger] listener_row(lv[j]) == Some(r);
                    if j < k {
                        assert(before.to_set().contains(r));
                    }
                }
                if before.to_set().contains(r) {
                    let j = choose|j: int| 1 <= j < k && j < lv.len() && #[trigger] listener_row(lv[j]) == Some(r);
                    assert(1 <= j < k + 1 && j < lv.len() && listener_row(lv[j]) == Some(r));
                }
            }
        }
        k = k + 1;
    }
    let mut out: Vec<char> = Vec::new();
    let mut i: usize = 0;
    while i < rows.len()
        invariant
            i <= rows@.len(),
            out@ == spaced_rows(views(rows@).take(i as int)),
        decreases rows.len() - i,
    {
        push_chars(&mut out, &rows[i]);
        push_str(&mut out, " ");
        proof {
            let v = views(rows@);
            assert(v.take(i + 1).drop_last() =~= v.take(i as int));
            assert(v[i as int] == rows@[i as int]@);
        }
        i = i + 1;
    }
    proof {
        let v = views(rows@);
        assert(v.take(i as int) =~= v);
        assert(v.to_set() =~= listener_rows(lsof_stdout@));
    }
    chars_to_string(&out)
}

/// The row that replaces `ok "streaming ports free"` when `lsof` never
/// answered within `deadline_secs`.
pub fn ports_unreadable_warn(deadline_secs: u64) -> (s: String)
    ensures
        s@ == "could not read the streaming ports: lsof did not answer within "@ + decimal(
            deadline_secs as nat,
        ) + "s — check them with: lsof -nP -iUDP:9944 -iTCP:9943"@,
{
    let mut s = String::from_str("could not read the streaming ports: lsof did not answer within ");
    let secs = u64_to_string(deadline_secs);
    s.append(secs.as_str());
    s.append("s — check them with: lsof -nP -iUDP:9944 -iTCP:9943");
    s
}

/// stop.sh's `$STALE` branch: `stale` is the listener text, `None` when the
/// probe blew its deadline of `deadline_secs`.
pub fn ports_row(stale: &Option<String>, deadline_secs: u64) -> (r: (Severity, String))
    ensures
        stale is None ==> r.0 == Severity::Warn && r.1@ == "could not read the streaming ports: lsof did not answer within "@
            + decimal(deadline_secs as nat) + "s — check them with: lsof -nP -iUDP:9944 -iTCP:9943"@,
        (stale matches Some(t) && t@.len() == 0) ==> r.0 == Severity::Success && r.1@
            == "streaming ports free"@,
        (stale matches Some(t) && t@.len() > 0) ==> r.0 == Severity::Warn && r.1@
            == "streaming ports still held by: "@ + stale->0@,
{
    match stale {
        None => (Severity::Warn, ports_unreadable_warn(deadline_secs)),
        Some(t) => {
            if t.as_str().unicode_len() == 0 {
                (Severity::Success, String::from_str("streaming ports free"))
            } else {
                let mut s = String::from_str("streaming ports still held by: ");
                s.append(t.as_str());
                (Severity::Warn, s)
            }
        },
    }
}

// ── reaps ────────────────────────────────────────────────────────────────────

/// A reap's three "there was one" rows.
#[derive(Debug, Clone, Copy, PartialEq, Eq)]
pub struct ReapMsg {
    /// The confirmed kill.
    pub killed: &'static str,
    /// The process that outlived SIGTERM (the survivors follow).
    pub survived: &'static str,
    /// The `--dry-run` row that claims only a plan.
    pub would: &'static str,
}

/// stop.sh's encoder-helper reap text.
pub fn helper_reap_msg() -> (m: ReapMsg)
    ensures
        m.killed@ == "encoder helper killed (the runtime owns it — this one outlived its game)"@,
        m.survived@ == "encoder helper still running after SIGTERM"@,
        m.would@ == "would terminate the leftover encoder helper"@,
{
    ReapMsg {
        killed: "encoder helper killed (the runtime owns it — this one outlived its game)",
        survived: "encoder helper still running after SIGTERM",
        would: "would terminate the leftover encoder helper",
    }
}

/// stop.sh's dashboard reap text.
pub fn dashboard_reap_msg() -> (m: ReapMsg)
    ensures
        m.killed@ == "ALVR dashboard closed (left over from a run that died uncleanly)"@,
        m.survived@ == "ALVR dashboard still running after SIGTERM"@,
        m.would@ == "would close the leftover ALVR dashboard"@,
{
    ReapMsg {
        killed: "ALVR dashboard closed (left over from a run that died uncleanly)",
        survived: "ALVR dashboard still running after SIGTERM",
        would: "would close the leftover ALVR dashboard",
    }
}

/// A reap's one closing row once something was signalled: the plan under
/// `--dry-run`, the kill once every signalled process is gone, else a `warn`
/// naming the processes still `alive`.
pub fn reap_row(msg: ReapMsg, dry_run: bool, alive: &Vec<ProcInfo>) -> (r: (Severity, String))
    ensures
        dry_run ==> r.0 == Severity::Info && r.1@ == msg.would@,
        !dry_run && alive@.len() == 0 ==> r.0 == Severity::Success && r.1@ == msg.killed@,
        !dry_run && alive@.len() > 0 ==> r.0 == Severity::Warn && r.1@ == msg.survived@ + ": "@
            + survivors_text(alive@, BEAT_SABER_EXE_SUFFIX@),
{
    if dry_run {
        (Severity::Info, String::from_str(msg.would))
    } else if alive.len() == 0 {
        (Severity::Success, String::from_str(msg.killed))
    } else {
        let mut s = String::from_str(msg.survived);
        s.append(": ");
        let listed = format_survivors(alive);
        s.append(listed.as_str());
        (Severity::Warn, s)
    }
}

/// A helper process counts as another checkout's when its executable is
/// named `oxrsys-encoder-helper` and its resolved path lies outside this
/// checkout's resolved root.
pub open spec fn is_foreign_helper_spec(exe: Seq<char>, exe_resolved: Seq<char>, root_resolved: Seq<char>) -> bool {
    path_file_name(exe) == Some(HELPER_BASENAME@) && !path_starts_with_spec(exe_resolved, root_resolved)
}

pub fn is_foreign_helper(exe: &str, exe_resolved: &str, root_resolved: &str) -> (r: bool)
    ensures
        r == is_foreign_helper_spec(exe@, exe_resolved@, root_resolved@),
{
    let named = match file_name(exe) {
        Some(n) => crate::text::chars_eq_str(&str_chars(n.as_str()), HELPER_BASENAME),
        None => false,
    };
    named && !path_starts_with(exe_resolved, root_resolved)
}

/// `leftover encoder helper from another checkout: <pid> <exe> — stop it from that checkout`.
pub fn foreign_helper_warn(p: &ProcInfo) -> (s: String)
    ensures
        s@ == "leftover encoder helper from another checkout: "@ + decimal(p.pid as nat) + " "@
            + p.exe@ + " — stop it from that checkout"@,
{
    let mut s = String::from_str("leftover encoder helper from another checkout: ");
    let pid = u64_to_string(p.pid as u64);
    s.append(pid.as_str());
    s.append(" ");
    s.append(p.exe.as_str());
    s.append(" — stop it from that checkout");
    s
}

/// The not-found row may print only when neither the local reap nor the
/// wider scan found a helper.
pub fn no_leftover_helper_row(foreign_found: bool, local_matched: bool) -> (r: Option<&'static str>)
    ensures
        r is Some <==> (!foreign_found && !local_matched),
        r matches Some(t) ==> t@ == NO_LEFTOVER_HELPER@,
{
    if !foreign_found && !local_matched {
        Some(NO_LEFTOVER_HELPER)
    } else {
        None
    }
}

// ── audio ────────────────────────────────────────────────────────────────────

/// stop.sh's `[ "$CUR" = "BlackHole 2ch" ]` branch.
#[derive(Debug, Clone, PartialEq, Eq)]
pub enum AudioReport {
    /// `warn` + the restore-hint `info`.
    StillBlackhole,
    /// `ok "audio output: <cur>"`.
    Restored(String),
}

/// A whole-string comparison, not a substring match.
pub fn audio_report(cur: &str) -> (r: AudioReport)
    ensures
        cur@ == "BlackHole 2ch"@ ==> r == AudioReport::StillBlackhole,
        cur@ != "BlackHole 2ch"@ ==> (r matches AudioReport::Restored(s) && s@ == cur@),
{
    if crate::text::chars_eq_str(&str_chars(cur), "BlackHole 2ch") {
        AudioReport::StillBlackhole
    } else {
        AudioReport::Restored(String::from_str(cur))
    }
}

pub const AUDIO_STILL_BLACKHOLE_WARN: &'static str =
    "Mac audio output is still BlackHole 2ch (a run that died uncleanly could not restore it)";

pub const AUDIO_RESTORE_HINT: &'static str =
    "restore with: SwitchAudioSource -t output -s '<device>'   (list: SwitchAudioSource -a -t output)";

/// The row that replaces the audio row when `SwitchAudioSource` never
/// answered within `deadline_secs`.
pub fn audio_unreadable_warn(deadline_secs: u64) -> (s: String)
    ensures
        s@ == "could not read the current audio output device: SwitchAudioSource did not answer within "@
            + decimal(deadline_secs as nat)
            + "s (check it with: SwitchAudioSource -c -t output)"@,
{
    let mut s = String::from_str(
        "could not read the current audio output device: SwitchAudioSource did not answer within ",
    );
    let secs = u64_to_string(deadline_secs);
    s.append(secs.as_str());
    s.append("s (check it with: SwitchAudioSource -c -t output)");
    s
}

/// `audio output: <cur>`.
pub fn audio_output_line(cur: &str) -> (s: String)
    ensures
        s@ == "audio output: "@ + cur@,
{
    let mut s = String::from_str("audio output: ");
    s.append(cur);
    s
}

/// stop.sh's audio rows from `SwitchAudioSource -c -t output`'s stdout
/// (`None` when the probe did not answer within `deadline_secs`), captured the
/// way `$(…)` captures it: the unreadable warn; the warn and restore hint while
/// the Mac is still on `BlackHole 2ch`; else the device, as an `ok` row.
pub fn audio_rows(stdout: &Option<String>, deadline_secs: u64) -> (rows: Vec<(Severity, String)>)
    ensures
        stdout is None ==> rows@.len() == 1 && rows@[0].0 == Severity::Warn && rows@[0].1@
            == "could not read the current audio output device: SwitchAudioSource did not answer within "@
            + decimal(deadline_secs as nat) + "s (check it with: SwitchAudioSource -c -t output)"@,
        (stdout matches Some(o) && strip_trailing_newlines(o@) == "BlackHole 2ch"@) ==> rows@.len() == 2
            && rows@[0].0 == Severity::Warn && rows@[0].1@ == AUDIO_STILL_BLACKHOLE_WARN@ && rows@[1].0
            == Severity::Info && rows@[1].1@ == AUDIO_RESTORE_HINT@,
        (stdout matches Some(o) && strip_trailing_newlines(o@) != "BlackHole 2ch"@) ==> rows@.len() == 1
            && rows@[0].0 == Severity::Success && rows@[0].1@ == "audio output: "@ + strip_trailing_newlines(
            stdout->0@,
        ),
{
    let mut rows: Vec<(Severity, String)> = Vec::new();
    match stdout {
        None => rows.push((Severity::Warn, audio_unreadable_warn(deadline_secs))),
        Some(o) => match audio_report(captured(o.as_str()).as_str()) {
            AudioReport::StillBlackhole => {
                rows.push((Severity::Warn, String::from_str(AUDIO_STILL_BLACKHOLE_WARN)));
                rows.push((Severity::Info, String::from_str(AUDIO_RESTORE_HINT)));
            },
            AudioReport::Restored(d) => rows.push((Severity::Success, audio_output_line(d.as_str()))),
        },
    }
    rows
}

/// The processes of `matches` that are another checkout's encoder helper:
/// `resolved[i]` is `matches[i]`'s resolved executable and `root_resolved`
/// this checkout's resolved root.
pub open spec fn foreign_helpers_spec(matches: Seq<ProcInfo>, resolved: Seq<Seq<char>>, root_resolved: Seq<char>) -> Seq<ProcInfo>
    decreases matches.len(),
{
    if matches.len() == 0 || resolved.len() != matches.len() {
        Seq::empty()
    } else {
        let rest = foreign_helpers_spec(matches.drop_last(), resolved.drop_last(), root_resolved);
        if is_foreign_helper_spec(matches.last().exe@, resolved.last(), root_resolved) {
            rest.push(matches.last())
        } else {
            rest
        }
    }
}

/// The stop's report on other checkouts' helpers: one warn per foreign
/// helper, in scan order, or — when there is none — the not-found row unless
/// the local reap already matched.
pub fn foreign_helper_rows(
    matches: &Vec<ProcInfo>,
    resolved: &Vec<String>,
    root_resolved: &str,
    local_matched: bool,
) -> (rows: Vec<(Severity, String)>)
    requires
        resolved@.len() == matches@.len(),
    ensures
        ({
            let foreign = foreign_helpers_spec(matches@, resolved@.map_values(|r: String| r@), root_resolved@);
            &&& foreign.len() == 0 && !local_matched ==> rows@.len() == 1 && rows@[0].0 == Severity::Success
                && rows@[0].1@ == NO_LEFTOVER_HELPER@
            &&& foreign.len() == 0 && local_matched ==> rows@.len() == 0
            &&& foreign.len() > 0 ==> rows@.len() == foreign.len() && forall|i: int|
                0 <= i < foreign.len() ==> #[trigger] rows@[i].0 == Severity::Warn && rows@[i].1@
                    == "leftover encoder helper from another checkout: "@ + decimal(foreign[i].pid as nat)
                    + " "@ + foreign[i].exe@ + " — stop it from that checkout"@
        }),
{
    let ghost rv = resolved@.map_values(|r: String| r@);
    let mut rows: Vec<(Severity, String)> = Vec::new();
    let mut i: usize = 0;
    while i < matches.len()
        invariant
            i <= matches@.len(),
            resolved@.len() == matches@.len(),
            rv == resolved@.map_values(|r: String| r@),
            ({
                let foreign = foreign_helpers_spec(matches@.take(i as int), rv.take(i as int), root_resolved@);
                &&& rows@.len() == foreign.len()
                &&& forall|k: int|
                    0 <= k < foreign.len() ==> #[trigger] rows@[k].0 == Severity::Warn && rows@[k].1@
                        == "leftover encoder helper from another checkout: "@ + decimal(foreign[k].pid as nat)
                        + " "@ + foreign[k].exe@ + " — stop it from that checkout"@
            }),
        decreases matches.len() - i,
    {
        proof {
            assert(matches@.take(i + 1).drop_last() =~= matches@.take(i as int));
            assert(rv.take(i + 1).drop_last() =~= rv.take(i as int));
        }
        let p = &matches[i];
        if is_foreign_helper(p.exe.as_str(), resolved[i].as_str(), root_resolved) {
            let warn = foreign_helper_warn(p);
            rows.push((Severity::Warn, warn));
        }
        i = i + 1;
    }
    proof {
        assert(matches@.take(i as int) =~= matches@);
        assert(rv.take(i as int) =~= rv);
    }
    if rows.len() == 0 && !local_matched {
        rows.push((Severity::Success, String::from_str(NO_LEFTOVER_HELPER)));
    }
    rows
}

/// The section a stop opens with.
pub fn stop_section_title(bottle_name: &str) -> (s: String)
    ensures
        s@ == "stopping wineserver for bottle '"@ + bottle_name@ + "' (takes the game with it)"@,
{
    let mut s = String::from_str("stopping wineserver for bottle '");
    s.append(bottle_name);
    s.append("' (takes the game with it)");
    s
}

/// A reap's mask over its matches: all of them on a dry run, which signals
/// nothing and lists its plan; otherwise those whose identity still names the
/// same live process (pid and start time).
pub open spec fn reap_mask(still_same: Seq<bool>, dry_run: bool) -> Seq<bool> {
    Seq::new(still_same.len(), |i: int| dry_run || still_same[i])
}

/// The identities a reap signals, in scan order; `still_same[i]` is the
/// identity check of `procs[i]` made just before the signal.
pub fn reap_targets(procs: &Vec<ProcInfo>, still_same: &Vec<bool>, dry_run: bool) -> (t: Vec<ProcInfo>)
    requires
        procs@.len() == still_same@.len(),
    ensures
        t@ == select(procs@, reap_mask(still_same@, dry_run)),
{
    let ghost mask = reap_mask(still_same@, dry_run);
    let mut t: Vec<ProcInfo> = Vec::new();
    let mut i: usize = 0;
    while i < procs.len()
        invariant
            i <= procs@.len(),
            procs@.len() == still_same@.len(),
            mask == reap_mask(still_same@, dry_run),
            t@ == select(procs@.take(i as int), mask.take(i as int)),
        decreases procs.len() - i,
    {
        proof {
            assert(procs@.take(i + 1).take(i as int) =~= procs@.take(i as int));
            assert(mask.take(i + 1).take(i as int) =~= mask.take(i as int));
        }
        if dry_run || still_same[i] {
            t.push(procs[i].clone());
        }
        i = i + 1;
    }
    proof {
        assert(procs@.take(i as int) =~= procs@);
        assert(mask.take(i as int) =~= mask);
    }
    t
}

/// `/bin/kill -TERM <pid>`'s arguments.
pub fn kill_args(pid: u32) -> (v: Vec<String>)
    ensures
        strings_view(v@) == seq!["-TERM"@, decimal(pid as nat)],
{
    let mut v: Vec<String> = Vec::new();
    v.push(String::from_str("-TERM"));
    v.push(u64_to_string(pid as u64));
    assert(strings_view(v@) =~= seq!["-TERM"@, decimal(pid as nat)]);
    v
}

/// A real reap never signals a pid whose identity no longer matches: every
/// identity it signals is one of its matches whose check said it is still
/// the same process; and when no check did, it signals nothing — the
/// not-found case, with no row claiming a kill.
pub proof fn lemma_reap_never_signals_a_changed_identity(procs: Seq<ProcInfo>, still_same: Seq<bool>)
    requires
        procs.len() == still_same.len(),
    ensures
        forall|k: int|
            0 <= k < select(procs, reap_mask(still_same, false)).len() ==> exists|i: int|
                0 <= i < procs.len() && still_same[i] && #[trigger] select(procs, reap_mask(still_same, false))[k]
                    == procs[i],
        (forall|i: int| 0 <= i < still_same.len() ==> !still_same[i]) ==> select(
            procs,
            reap_mask(still_same, false),
        ).len() == 0,
        select(procs, reap_mask(still_same, true)) == procs,
{
    let mask = reap_mask(still_same, false);
    lemma_select_kept(procs, mask);
    assert forall|k: int| 0 <= k < select(procs, mask).len() implies exists|i: int|
        0 <= i < procs.len() && still_same[i] && #[trigger] select(procs, mask)[k] == procs[i] by {
        let i = choose|i: int| 0 <= i < procs.len() && mask[i] && select(procs, mask)[k] == procs[i];
        assert(still_same[i]);
    }
    if forall|i: int| 0 <= i < still_same.len() ==> !still_same[i] {
        lemma_select_none(procs, mask);
    }
    lemma_select_all(procs, reap_mask(still_same, true));
}

proof fn lemma_select_none(xs: Seq<ProcInfo>, keep: Seq<bool>)
    requires
        keep.len() == xs.len(),
        forall|i: int| 0 <= i < keep.len() ==> !keep[i],
    ensures
        select(xs, keep).len() == 0,
    decreases xs.len(),
{
    if xs.len() > 0 {
        let n = xs.len() - 1;
        lemma_select_none(xs.take(n), keep.take(n));
    }
}

proof fn lemma_select_all(xs: Seq<ProcInfo>, keep: Seq<bool>)
    requires
        keep.len() == xs.len(),
        forall|i: int| 0 <= i < keep.len() ==> keep[i],
    ensures
        select(xs, keep) == xs,
    decreases xs.len(),
{
    if xs.len() > 0 {
        let n = xs.len() - 1;
        lemma_select_all(xs.take(n), keep.take(n));
        assert(xs.take(n).push(xs[n]) =~= xs);
    }
}

} // verus!
