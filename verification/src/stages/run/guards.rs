//! The two guarded launch actions — audio routing and the ALVR dashboard —
//! the only mutations `run` undoes. Each guard is a small state machine:
//! armed with what to undo, then released (undo), disarmed (detach: forget
//! without undoing) or dropped (a best-effort undo, inert once released,
//! disarmed, or under `--dry-run`).

use vstd::prelude::*;

use crate::events::{RunId, Severity};
use crate::process::ProcInfo;
use crate::stages::run::actions::BLACKHOLE_DEVICE;
use crate::text::{
    captured, chars_eq_str, lines, opt_view, split_lines, str_chars, strip_trailing_newlines, views,
};

verus! {

/// Which of run.sh's audio branches applies (`launch-action: audio-route`).
#[derive(Debug, Clone, PartialEq, Eq)]
pub enum AudioEligibility {
    /// `--no-audio`: one `info` row, no guard.
    Disabled,
    /// `protocol != "alvr"`, or `SwitchAudioSource` is not installed: nothing
    /// printed at all.
    Skip,
    /// Eligible: probe the device list with this `SwitchAudioSource`, then switch.
    Probe(String),
}

/// run.sh's audio if/elif chain: `--no-audio` wins over everything, and the
/// switch is attempted only for `protocol = "alvr"` with the binary present.
pub fn audio_eligibility(no_audio: bool, protocol: &str, switch_bin: Option<String>) -> (e: AudioEligibility)
    ensures
        no_audio ==> e == AudioEligibility::Disabled,
        !no_audio && protocol@ == "alvr"@ && switch_bin is Some ==> e == AudioEligibility::Probe(
            switch_bin->0,
        ),
        !no_audio && !(protocol@ == "alvr"@ && switch_bin is Some) ==> e == AudioEligibility::Skip,
{
    if no_audio {
        return AudioEligibility::Disabled;
    }
    let alvr = chars_eq_str(&str_chars(protocol), "alvr");
    match switch_bin {
        Some(bin) => {
            if alvr {
                AudioEligibility::Probe(bin)
            } else {
                AudioEligibility::Skip
            }
        },
        None => AudioEligibility::Skip,
    }
}

/// `grep -qx "BlackHole 2ch"` over the device list: an exact whole-line match.
pub open spec fn blackhole_listed_spec(list_stdout: Seq<char>) -> bool {
    lines(list_stdout).contains(BLACKHOLE_DEVICE@)
}

/// `SwitchAudioSource -a -t output | grep -qx "BlackHole 2ch"`: a device that
/// merely contains the name does not count.
pub fn blackhole_listed(list_stdout: &str) -> (r: bool)
    ensures
        r == blackhole_listed_spec(list_stdout@),
{
    let ls = split_lines(&str_chars(list_stdout));
    let mut i: usize = 0;
    while i < ls.len()
        invariant
            views(ls@) == lines(list_stdout@),
            i <= ls@.len(),
            forall|j: int| 0 <= j < i ==> views(ls@)[j] != BLACKHOLE_DEVICE@,
        decreases ls.len() - i,
    {
        if chars_eq_str(&ls[i], BLACKHOLE_DEVICE) {
            assert(views(ls@)[i as int] == BLACKHOLE_DEVICE@);
            return true;
        }
        assert(views(ls@)[i as int] == ls@[i as int]@);
        i = i + 1;
    }
    proof {
        let vs = views(ls@);
        if vs.contains(BLACKHOLE_DEVICE@) {
            let k = choose|k: int| 0 <= k < vs.len() && vs[k] == BLACKHOLE_DEVICE@;
            assert(vs[k] != BLACKHOLE_DEVICE@);
        }
    }
    false
}

/// The non-empty lines of `SwitchAudioSource -a -t output`, one device each.
pub open spec fn output_devices_spec(list_stdout: Seq<char>) -> Seq<Seq<char>> {
    lines(list_stdout).filter(|l: Seq<char>| l.len() > 0)
}

/// The device list, one name per non-empty line.
pub fn output_devices(list_stdout: &str) -> (out: Vec<String>)
    ensures
        out@.map_values(|s: String| s@) == output_devices_spec(list_stdout@),
{
    let ls = split_lines(&str_chars(list_stdout));
    let ghost vs = views(ls@);
    let mut out: Vec<String> = Vec::new();
    let mut i: usize = 0;
    while i < ls.len()
        invariant
            vs == views(ls@),
            vs == lines(list_stdout@),
            i <= ls@.len(),
            out@.map_values(|s: String| s@) == vs.take(i as int).filter(
                |l: Seq<char>| l.len() > 0,
            ),
        decreases ls.len() - i,
    {
        proof {
            assert(vs.take(i + 1) =~= vs.take(i as int).push(vs[i as int]));
            vs.take(i as int).lemma_filter_push(vs[i as int], |l: Seq<char>| l.len() > 0);
            assert(vs[i as int] == ls@[i as int]@);
        }
        if ls[i].len() > 0 {
            let ghost before = out@;
            out.push(crate::text::chars_to_string(&ls[i]));
            proof {
                assert(out@.map_values(|s: String| s@) =~= before.map_values(|s: String| s@).push(
                    ls@[i as int]@,
                ));
            }
        }
        i = i + 1;
    }
    assert(vs.take(i as int) =~= vs);
    out
}

/// run.sh's `--no-audio` info line, verbatim.
pub const AUDIO_DISABLED_LINE: &'static str =
    "audio routing disabled (--no-audio) — sound stays on the Mac";

/// run.sh's BlackHole-not-present warn line, verbatim.
pub fn blackhole_not_present_line() -> (s: String)
    ensures
        s@ == BLACKHOLE_DEVICE@
            + " not present (brew install blackhole-2ch + reboot) — audio stays on the Mac"@,
{
    let mut s = String::from_str(BLACKHOLE_DEVICE);
    s.append(" not present (brew install blackhole-2ch + reboot) — audio stays on the Mac");
    s
}

/// run.sh's failed-switch warn line.
pub fn blackhole_switch_failed_line() -> (s: String)
    ensures
        s@ == "could not switch output to "@ + BLACKHOLE_DEVICE@ + " — audio stays on the Mac"@,
{
    let mut s = String::from_str("could not switch output to ");
    s.append(BLACKHOLE_DEVICE);
    s.append(" — audio stays on the Mac");
    s
}

/// `audio: default output -> BlackHole 2ch (was: <dev>)`.
pub fn audio_switched_line(previous: &str) -> (s: String)
    ensures
        s@ == "audio: default output -> "@ + BLACKHOLE_DEVICE@ + " (was: "@ + previous@ + ")"@,
{
    let mut s = String::from_str("audio: default output -> ");
    s.append(BLACKHOLE_DEVICE);
    s.append(" (was: ");
    s.append(previous);
    s.append(")");
    s
}

/// `audio: restored output -> <dev>`.
pub fn audio_restored_line(previous: &str) -> (s: String)
    ensures
        s@ == "audio: restored output -> "@ + previous@,
{
    let mut s = String::from_str("audio: restored output -> ");
    s.append(previous);
    s
}

// ── the audio guard ─────────────────────────────────────────────────────────

/// Where arming the audio guard stands.
#[derive(Debug, Clone, Copy, PartialEq, Eq, Structural)]
pub enum AudioPhase {
    /// Nothing to do: an inert guard, or one whose record could not be saved.
    Idle,
    /// The device to restore is on the session record, whose save was handed
    /// out; nothing is switched yet.
    AwaitSave,
    /// The save succeeded; the switch to `BlackHole 2ch` was handed out.
    AwaitSwitch,
    /// The switch ended, either way.
    Settled,
}

/// One answer arming gets back from its outside work.
#[derive(Debug, Clone, Copy, PartialEq, Eq, Structural)]
pub enum AudioEvent {
    /// The session record was saved (`true`) or the save failed.
    Saved(bool),
    /// `SwitchAudioSource -t output -s "BlackHole 2ch"` ran and succeeded or
    /// not.
    Switched(bool),
    /// The switch could not be run, or stop landed while it ran: its error
    /// travels.
    SwitchErrored,
}

/// The outside work arming asks for next.
#[derive(Debug, Clone, PartialEq, Eq)]
pub enum AudioAction {
    /// Save the session record, which now names the device to restore.
    SaveRecord,
    /// Run `<bin> -t output -s <device>`.
    Switch { bin: String, device: String },
    /// The save failed: its error travels, nothing was switched, and the
    /// guard restores nothing.
    Abort,
    /// Print this line on the audio step, then pin the device volume.
    Switched(String),
    /// Print this warn; save the record again when `save` (it was cleared),
    /// and a failure of that save travels.
    SwitchFailed { warn: String, save: bool },
    /// The switch's error travels: nothing is printed, the record is left as
    /// it is, and the guard stays armed for the teardown.
    Fail,
}

/// The audio guard's state, as plain values.
pub struct AudioGuardView {
    /// The run the guard belongs to.
    pub run_id: RunId,
    pub phase: AudioPhase,
    /// The device the record names while its save is outstanding.
    pub pending: Option<Seq<char>>,
    /// The device to restore; `None` = nothing was switched.
    pub previous_output: Option<Seq<char>>,
    /// `SwitchAudioSource`'s resolved path.
    pub switch_bin: Option<Seq<char>>,
    /// `previous_output` was inherited from an earlier session's unfinished
    /// restore rather than read off this machine.
    pub carried: bool,
    /// A dry run never mutates, so its drop must not either.
    pub dry_run: bool,
    pub released: bool,
    pub disarmed: bool,
}

/// `launch-action: audio-route`: routes the Mac's default output to
/// `BlackHole 2ch` for the session and restores it on release.
pub struct AudioGuard {
    phase: AudioPhase,
    pending: Option<String>,
    previous_output: Option<String>,
    switch_bin: Option<String>,
    carried: bool,
    run_id: RunId,
    dry_run: bool,
    released: bool,
    disarmed: bool,
}

impl View for AudioGuard {
    type V = AudioGuardView;

    closed spec fn view(&self) -> AudioGuardView {
        AudioGuardView {
            run_id: self.run_id,
            phase: self.phase,
            pending: opt_view(self.pending),
            previous_output: opt_view(self.previous_output),
            switch_bin: opt_view(self.switch_bin),
            carried: self.carried,
            dry_run: self.dry_run,
            released: self.released,
            disarmed: self.disarmed,
        }
    }
}

/// What a guard would switch: the device to put back and the binary to do it
/// with, when it holds both.
pub open spec fn audio_target(g: AudioGuardView) -> Option<(Seq<char>, Seq<char>)> {
    match (g.previous_output, g.switch_bin) {
        (Some(p), Some(b)) => Some((p, b)),
        _ => None,
    }
}

/// What a dropped guard restores: nothing once released or disarmed, nothing
/// under a dry run, otherwise its target.
pub open spec fn audio_drop_spec(g: AudioGuardView) -> Option<(Seq<char>, Seq<char>)> {
    if g.released || g.disarmed || g.dry_run {
        None
    } else {
        audio_target(g)
    }
}

/// What releasing a guard owes.
#[derive(Debug, Clone, PartialEq, Eq)]
pub enum AudioRelease {
    /// Nothing was switched: nothing to restore and no record to write.
    Nothing,
    /// Switch back to `previous` with `bin`, then record whether that (or the
    /// fallback) left the Mac audible.
    Restore { previous: String, bin: String },
    /// A device is on record but there is no switcher: nothing was ever
    /// switched, so the record is written as restored.
    NoSwitcher,
}

/// The `audio_restored` flag a release writes, given whether the switch back
/// (or its fallback) left the Mac audible; `None` when nothing is written.
pub open spec fn audio_restored_after_spec(r: AudioRelease, audible: bool) -> Option<bool> {
    match r {
        AudioRelease::Nothing => None,
        AudioRelease::Restore { .. } => Some(audible),
        AudioRelease::NoSwitcher => Some(true),
    }
}

pub fn audio_restored_after(r: &AudioRelease, audible: bool) -> (flag: Option<bool>)
    ensures
        flag == audio_restored_after_spec(*r, audible),
{
    match r {
        AudioRelease::Nothing => None,
        AudioRelease::Restore { .. } => Some(audible),
        AudioRelease::NoSwitcher => Some(true),
    }
}

/// An [`AudioAction`] as plain values.
pub enum AudioStep {
    SaveRecord,
    Switch { bin: Seq<char>, device: Seq<char> },
    Abort,
    Switched(Seq<char>),
    SwitchFailed { warn: Seq<char>, save: bool },
    Fail,
}

pub open spec fn audio_step_view(a: AudioAction) -> AudioStep {
    match a {
        AudioAction::SaveRecord => AudioStep::SaveRecord,
        AudioAction::Switch { bin, device } => AudioStep::Switch { bin: bin@, device: device@ },
        AudioAction::Abort => AudioStep::Abort,
        AudioAction::Switched(t) => AudioStep::Switched(t@),
        AudioAction::SwitchFailed { warn, save } => AudioStep::SwitchFailed { warn: warn@, save },
        AudioAction::Fail => AudioStep::Fail,
    }
}

/// The guard after `e`; an answer the phase does not wait for changes nothing.
pub open spec fn audio_next(v: AudioGuardView, e: AudioEvent) -> AudioGuardView {
    match e {
        AudioEvent::Saved(ok) => if v.phase != AudioPhase::AwaitSave {
            v
        } else if ok {
            AudioGuardView { phase: AudioPhase::AwaitSwitch, pending: None, previous_output: v.pending, ..v }
        } else {
            AudioGuardView { phase: AudioPhase::Idle, pending: None, ..v }
        },
        AudioEvent::Switched(ok) => if v.phase != AudioPhase::AwaitSwitch {
            v
        } else if ok {
            AudioGuardView { phase: AudioPhase::Settled, ..v }
        } else {
            AudioGuardView { phase: AudioPhase::Settled, previous_output: None, ..v }
        },
        AudioEvent::SwitchErrored => if v.phase != AudioPhase::AwaitSwitch {
            v
        } else {
            AudioGuardView { phase: AudioPhase::Settled, ..v }
        },
    }
}

/// The outside work asked for after `e`; `None` for an answer the phase does
/// not wait for.
pub open spec fn audio_emits(v: AudioGuardView, e: AudioEvent) -> Option<AudioStep> {
    match e {
        AudioEvent::Saved(ok) => if v.phase != AudioPhase::AwaitSave {
            None
        } else if ok {
            Some(AudioStep::Switch { bin: v.switch_bin->0, device: BLACKHOLE_DEVICE@ })
        } else {
            Some(AudioStep::Abort)
        },
        AudioEvent::Switched(ok) => if v.phase != AudioPhase::AwaitSwitch {
            None
        } else if ok {
            Some(AudioStep::Switched("audio: default output -> "@ + BLACKHOLE_DEVICE@ + " (was: "@
                + v.previous_output->0 + ")"@))
        } else {
            Some(AudioStep::SwitchFailed {
                warn: "could not switch output to "@ + BLACKHOLE_DEVICE@ + " — audio stays on the Mac"@,
                save: !v.carried,
            })
        },
        AudioEvent::SwitchErrored => if v.phase != AudioPhase::AwaitSwitch {
            None
        } else {
            Some(AudioStep::Fail)
        },
    }
}

/// The switch's two outcomes, over every armed guard: a switch that
/// succeeded prints the route with the device it replaced and keeps that
/// device to restore; one that failed warns that audio stays on the Mac,
/// forgets the device (nothing was switched, so nothing is restored), and
/// asks for the record to be saved again exactly when the device was this
/// run's own rather than inherited.
pub proof fn lemma_audio_switch_outcomes(v: AudioGuardView)
    requires
        v.phase == AudioPhase::AwaitSwitch,
        v.previous_output is Some,
    ensures
        audio_emits(v, AudioEvent::Switched(true)) == Some(
            AudioStep::Switched("audio: default output -> BlackHole 2ch (was: "@ + v.previous_output->0 + ")"@),
        ),
        audio_next(v, AudioEvent::Switched(true)).previous_output == v.previous_output,
        audio_emits(v, AudioEvent::Switched(false)) == Some(
            AudioStep::SwitchFailed {
                warn: "could not switch output to BlackHole 2ch — audio stays on the Mac"@,
                save: !v.carried,
            },
        ),
        audio_next(v, AudioEvent::Switched(false)).previous_output is None,
        audio_target(audio_next(v, AudioEvent::Switched(false))) is None,
{
    reveal_strlit("BlackHole 2ch");
    reveal_strlit("audio: default output -> ");
    reveal_strlit("audio: default output -> BlackHole 2ch (was: ");
    reveal_strlit(" (was: ");
    reveal_strlit("could not switch output to ");
    reveal_strlit("could not switch output to BlackHole 2ch — audio stays on the Mac");
    reveal_strlit(" — audio stays on the Mac");
    assert("audio: default output -> "@ + BLACKHOLE_DEVICE@ + " (was: "@ =~= "audio: default output -> BlackHole 2ch (was: "@);
    assert("could not switch output to "@ + BLACKHOLE_DEVICE@ + " — audio stays on the Mac"@
        =~= "could not switch output to BlackHole 2ch — audio stays on the Mac"@);
}

/// A failed save switches nothing and arms nothing: the arming aborts, and
/// neither a release nor a drop has a device to put back. A successful one
/// asks for the switch to `BlackHole 2ch` with the guard's own switcher.
pub proof fn lemma_audio_save_outcomes(v: AudioGuardView)
    requires
        v.phase == AudioPhase::AwaitSave,
        v.previous_output is None,
        v.switch_bin is Some,
    ensures
        audio_emits(v, AudioEvent::Saved(false)) == Some(AudioStep::Abort),
        audio_target(audio_next(v, AudioEvent::Saved(false))) is None,
        audio_emits(v, AudioEvent::Saved(true)) == Some(
            AudioStep::Switch { bin: v.switch_bin->0, device: "BlackHole 2ch"@ },
        ),
        audio_target(audio_next(v, AudioEvent::Saved(true))) == (match v.pending {
            Some(p) => Some((p, v.switch_bin->0)),
            None => None,
        }),
{
}

/// A switch that could not run, or that stop cut short, is no failed switch:
/// its error travels with no row, and the guard keeps the device it restores
/// — the teardown, not a drop, puts it back and records that it did.
pub proof fn lemma_an_errored_switch_leaves_the_guard_armed(v: AudioGuardView)
    requires
        v.phase == AudioPhase::AwaitSwitch,
    ensures
        audio_emits(v, AudioEvent::SwitchErrored) == Some(AudioStep::Fail),
        audio_next(v, AudioEvent::SwitchErrored).previous_output == v.previous_output,
        audio_target(audio_next(v, AudioEvent::SwitchErrored)) == audio_target(v),
        audio_drop_spec(audio_next(v, AudioEvent::SwitchErrored)) == audio_drop_spec(v),
{
}

/// Write before mutate, for the audio route: the switch to `BlackHole 2ch`
/// is asked for only as the answer to the successful save of the record, and
/// from that step on the guard restores exactly the device that record names.
/// A failed save arms nothing.
pub proof fn lemma_audio_switch_after_saved_record(v: AudioGuardView, e: AudioEvent)
    ensures
        audio_emits(v, e) matches Some(AudioStep::Switch { .. }) ==> v.phase == AudioPhase::AwaitSave
            && e == AudioEvent::Saved(true) && audio_next(v, e).previous_output == v.pending,
        v.phase == AudioPhase::AwaitSave && v.previous_output is None && e == AudioEvent::Saved(false)
            ==> audio_target(audio_next(v, e)) is None && audio_drop_spec(audio_next(v, e)) is None,
{
}

/// The steps an arming hands out, in order, each with the answer it came
/// from; an answer the phase does not wait for hands out nothing.
pub open spec fn audio_trace(v: AudioGuardView, evs: Seq<AudioEvent>) -> Seq<(AudioEvent, AudioStep)>
    decreases evs.len(),
{
    if evs.len() == 0 {
        Seq::empty()
    } else {
        let rest = audio_trace(audio_next(v, evs[0]), evs.drop_first());
        match audio_emits(v, evs[0]) {
            Some(s) => seq![(evs[0], s)] + rest,
            None => rest,
        }
    }
}

proof fn lemma_audio_no_switch_after_save(v: AudioGuardView, evs: Seq<AudioEvent>)
    requires
        v.phase != AudioPhase::AwaitSave,
    ensures
        forall|i: int| 0 <= i < audio_trace(v, evs).len() ==> !((#[trigger] audio_trace(v, evs)[i]).1 is Switch),
    decreases evs.len(),
{
    if evs.len() > 0 {
        let w = audio_next(v, evs[0]);
        lemma_audio_no_switch_after_save(w, evs.drop_first());
        let tr = audio_trace(v, evs);
        let tail = audio_trace(w, evs.drop_first());
        if let Some(s) = audio_emits(v, evs[0]) {
            assert(tr == seq![(evs[0], s)] + tail);
            assert forall|i: int| 0 <= i < tr.len() implies !((#[trigger] tr[i]).1 is Switch) by {
                if i > 0 {
                    assert(tr[i] == tail[i - 1]);
                }
            }
        }
    }
}

/// Write before mutate, over a whole arming: from the armed guard, whose
/// first step saves the record naming the device to restore, whatever the
/// outside work answers, the switch to `BlackHole 2ch` is asked for at most
/// once, only as the very next step, and only as the answer to that save's
/// success.
pub proof fn lemma_audio_switch_only_answers_the_saved_record(v: AudioGuardView, evs: Seq<AudioEvent>)
    requires
        v.phase == AudioPhase::AwaitSave,
    ensures
        forall|i: int|
            0 <= i < audio_trace(v, evs).len() && (#[trigger] audio_trace(v, evs)[i]).1 is Switch ==> i == 0
                && audio_trace(v, evs)[i].0 == AudioEvent::Saved(true),
    decreases evs.len(),
{
    if evs.len() > 0 {
        let e = evs[0];
        let w = audio_next(v, e);
        let tr = audio_trace(v, evs);
        let tail = audio_trace(w, evs.drop_first());
        match audio_emits(v, e) {
            None => {
                assert(w == v);
                lemma_audio_switch_only_answers_the_saved_record(w, evs.drop_first());
            },
            Some(s) => {
                lemma_audio_no_switch_after_save(w, evs.drop_first());
                assert(tr == seq![(e, s)] + tail);
                assert forall|i: int| 0 <= i < tr.len() && (#[trigger] tr[i]).1 is Switch implies i == 0 && tr[i].0
                    == AudioEvent::Saved(true) by {
                    if i > 0 {
                        assert(tr[i] == tail[i - 1]);
                    }
                }
            },
        }
    }
}

impl AudioGuard {
    /// A guard that switched nothing, so restores nothing.
    pub fn inert(run_id: RunId, dry_run: bool) -> (g: AudioGuard)
        ensures
            g@ == (AudioGuardView {
                run_id,
                phase: AudioPhase::Idle,
                pending: None,
                previous_output: None,
                switch_bin: None,
                carried: false,
                dry_run,
                released: false,
                disarmed: false,
            }),
    {
        AudioGuard {
            phase: AudioPhase::Idle,
            pending: None,
            previous_output: None,
            switch_bin: None,
            carried: false,
            run_id,
            dry_run,
            released: false,
            disarmed: false,
        }
    }

    /// Arm the guard once `BlackHole 2ch` is known to be present: decide the
    /// device to restore, put it on the session record (`prev_audio_output`)
    /// and hand out the record's save. Nothing is switched, and nothing will
    /// be restored, until that save is acknowledged ([`AudioGuard::saved`]).
    ///
    /// A device carried forward from an earlier session's unfinished restore
    /// (on record, and `audio_restored` still false) outranks the current
    /// output — `SwitchAudioSource -c -t output`'s `current_stdout`, captured
    /// the way `$(…)` captures it: in exactly that case the reading is
    /// `BlackHole 2ch`.
    pub fn arm(
        run_id: RunId,
        dry_run: bool,
        switch_bin: String,
        current_stdout: &str,
        prev_audio_output: &mut Option<String>,
        audio_restored: bool,
    ) -> (r: (AudioGuard, AudioAction))
        ensures
            ({
                let carried = *old(prev_audio_output) is Some && !audio_restored;
                let previous = if carried {
                    (*old(prev_audio_output))->0@
                } else {
                    strip_trailing_newlines(current_stdout@)
                };
                &&& r.0@ == (AudioGuardView {
                    run_id,
                    phase: AudioPhase::AwaitSave,
                    pending: Some(previous),
                    previous_output: None,
                    switch_bin: Some(switch_bin@),
                    carried,
                    dry_run,
                    released: false,
                    disarmed: false,
                })
                &&& opt_view(*final(prev_audio_output)) == Some(previous)
                &&& r.1 == AudioAction::SaveRecord
            }),
    {
        let carried = prev_audio_output.is_some() && !audio_restored;
        let previous: String = match prev_audio_output {
            Some(pending) => {
                if carried {
                    pending.clone()
                } else {
                    captured(current_stdout)
                }
            },
            None => captured(current_stdout),
        };
        *prev_audio_output = Some(previous.clone());
        let g = AudioGuard {
            phase: AudioPhase::AwaitSave,
            pending: Some(previous),
            previous_output: None,
            switch_bin: Some(switch_bin),
            carried,
            run_id,
            dry_run,
            released: false,
            disarmed: false,
        };
        (g, AudioAction::SaveRecord)
    }

    /// The record's save came back `ok` or not. Only a saved record arms the
    /// guard — from here on a release or a drop restores the device it names
    /// — and only then is the switch handed out.
    pub fn saved(&mut self, ok: bool) -> (a: AudioAction)
        requires
            old(self)@.phase == AudioPhase::AwaitSave,
            old(self)@.pending is Some,
            old(self)@.switch_bin is Some,
        ensures
            final(self)@ == audio_next(old(self)@, AudioEvent::Saved(ok)),
            Some(audio_step_view(a)) == audio_emits(old(self)@, AudioEvent::Saved(ok)),
    {
        let pending = self.pending.take();
        if ok {
            self.previous_output = pending;
            self.phase = AudioPhase::AwaitSwitch;
            let bin = match &self.switch_bin {
                Some(b) => b.clone(),
                None => String::new(),
            };
            AudioAction::Switch { bin, device: String::from_str(BLACKHOLE_DEVICE) }
        } else {
            self.phase = AudioPhase::Idle;
            AudioAction::Abort
        }
    }

    /// The switch came back `ok` or not. A success prints the switched line;
    /// a failure is run.sh's failed-switch branch: forget the device so the
    /// teardown restores nothing, and clear the record too — unless the device
    /// was carried from an earlier session, whose pending restore is never
    /// forgotten.
    pub fn switched(&mut self, ok: bool, prev_audio_output: &mut Option<String>) -> (a: AudioAction)
        requires
            old(self)@.phase == AudioPhase::AwaitSwitch,
            old(self)@.previous_output is Some,
        ensures
            final(self)@ == audio_next(old(self)@, AudioEvent::Switched(ok)),
            Some(audio_step_view(a)) == audio_emits(old(self)@, AudioEvent::Switched(ok)),
            ok || old(self)@.carried ==> *final(prev_audio_output) == *old(prev_audio_output),
            !ok && !old(self)@.carried ==> *final(prev_audio_output) is None,
    {
        self.phase = AudioPhase::Settled;
        if ok {
            let line = match &self.previous_output {
                Some(p) => audio_switched_line(p.as_str()),
                None => String::new(),
            };
            AudioAction::Switched(line)
        } else {
            self.previous_output = None;
            if !self.carried {
                *prev_audio_output = None;
            }
            AudioAction::SwitchFailed { warn: blackhole_switch_failed_line(), save: !self.carried }
        }
    }

    /// The switch could not run, or stop landed while it ran. Its error
    /// travels; the guard stays armed, and the record is not touched.
    pub fn switch_errored(&mut self) -> (a: AudioAction)
        requires
            old(self)@.phase == AudioPhase::AwaitSwitch,
        ensures
            final(self)@ == audio_next(old(self)@, AudioEvent::SwitchErrored),
            Some(audio_step_view(a)) == audio_emits(old(self)@, AudioEvent::SwitchErrored),
    {
        self.phase = AudioPhase::Settled;
        AudioAction::Fail
    }

    fn target(&self) -> (t: Option<(String, String)>)
        ensures
            match t {
                Some((p, b)) => audio_target(self@) == Some((p@, b@)),
                None => audio_target(self@) is None,
            },
    {
        match (&self.previous_output, &self.switch_bin) {
            (Some(p), Some(b)) => Some((p.clone(), b.clone())),
            _ => None,
        }
    }

    /// Release the guard: what it owes, after which it is inert.
    pub fn release(&mut self) -> (r: AudioRelease)
        ensures
            final(self)@ == (AudioGuardView {
                previous_output: None,
                released: true,
                ..old(self)@
            }),
            old(self)@.previous_output is None ==> r == AudioRelease::Nothing,
            old(self)@.previous_output is Some && old(self)@.switch_bin is None ==> r
                == AudioRelease::NoSwitcher,
            audio_target(old(self)@) matches Some((p, b)) ==> (r matches AudioRelease::Restore {
                previous,
                bin,
            } && previous@ == p && bin@ == b),
    {
        self.released = true;
        let previous = self.previous_output.take();
        match previous {
            None => AudioRelease::Nothing,
            Some(previous) => match &self.switch_bin {
                Some(bin) => AudioRelease::Restore { previous, bin: bin.clone() },
                None => AudioRelease::NoSwitcher,
            },
        }
    }

    /// Detach: forget the guard **without** restoring. The device stays on
    /// BlackHole on purpose, and the session record keeps describing it.
    pub fn disarm(&mut self)
        ensures
            final(self)@ == (AudioGuardView { disarmed: true, ..old(self)@ }),
    {
        self.disarmed = true;
    }

    /// What a guard dropped without a release restores: `(device, binary)`.
    pub fn drop_restore(&self) -> (t: Option<(String, String)>)
        ensures
            match t {
                Some((p, b)) => audio_drop_spec(self@) == Some((p@, b@)),
                None => audio_drop_spec(self@) is None,
            },
    {
        if self.released || self.disarmed || self.dry_run {
            None
        } else {
            self.target()
        }
    }

    /// The run this guard belongs to.
    pub fn run_id(&self) -> (r: RunId)
        ensures
            r == self@.run_id,
    {
        self.run_id
    }
}

/// A released, disarmed or dry-run guard restores nothing when dropped, and
/// releasing twice owes nothing the second time.
pub proof fn lemma_audio_guard_undoes_once(g: AudioGuardView)
    ensures
        g.released || g.disarmed || g.dry_run ==> audio_drop_spec(g) is None,
        audio_drop_spec(AudioGuardView { previous_output: None, released: true, ..g }) is None,
        audio_drop_spec(AudioGuardView { disarmed: true, ..g }) is None,
        audio_target(AudioGuardView { previous_output: None, released: true, ..g }) is None,
{
}

// ── the dashboard guard ─────────────────────────────────────────────────────

/// Which of run.sh's dashboard branches applies (`launch-action: dashboard`).
#[derive(Debug, Clone, Copy, PartialEq, Eq, Structural)]
pub enum DashboardEligibility {
    /// `--no-dashboard`: one `info` row.
    Disabled,
    /// `protocol != "alvr"`: the shell's bare `:` — nothing at all.
    Skip,
    /// The binary is missing or not executable: one `warn` row.
    NotBuilt,
    /// Spawn it.
    Spawn,
}

/// run.sh's dashboard if/elif chain.
pub fn dashboard_eligibility(no_dashboard: bool, protocol: &str, binary_executable: bool) -> (e: DashboardEligibility)
    ensures
        e == if no_dashboard {
            DashboardEligibility::Disabled
        } else if protocol@ != "alvr"@ {
            DashboardEligibility::Skip
        } else if binary_executable {
            DashboardEligibility::Spawn
        } else {
            DashboardEligibility::NotBuilt
        },
{
    if no_dashboard {
        DashboardEligibility::Disabled
    } else if !chars_eq_str(&str_chars(protocol), "alvr") {
        DashboardEligibility::Skip
    } else if binary_executable {
        DashboardEligibility::Spawn
    } else {
        DashboardEligibility::NotBuilt
    }
}

pub const DASHBOARD_OPENING_LINE: &'static str =
    "dashboard: ALVR server dashboard opening (connects once the game is up)";

pub const DASHBOARD_CLOSED_LINE: &'static str = "dashboard: closed";

/// run.sh's `--no-dashboard` info line, verbatim.
pub const DASHBOARD_DISABLED_LINE: &'static str = "ALVR dashboard disabled (--no-dashboard)";

/// run.sh's unbuilt-dashboard warn line, verbatim.
pub const DASHBOARD_NOT_BUILT_LINE: &'static str =
    "alvr_dashboard not built — ./demo.sh build (continuing without the dashboard)";

/// The row a non-spawning branch prints, if any.
pub fn dashboard_row(e: DashboardEligibility) -> (r: Option<(Severity, &'static str)>)
    ensures
        e == DashboardEligibility::Disabled ==> (r matches Some((sev, t)) && sev == Severity::Info
            && t@ == DASHBOARD_DISABLED_LINE@),
        e == DashboardEligibility::NotBuilt ==> (r matches Some((sev, t)) && sev == Severity::Warn
            && t@ == DASHBOARD_NOT_BUILT_LINE@),
        e == DashboardEligibility::Skip || e == DashboardEligibility::Spawn ==> r is None,
{
    match e {
        DashboardEligibility::Disabled => Some((Severity::Info, DASHBOARD_DISABLED_LINE)),
        DashboardEligibility::NotBuilt => Some((Severity::Warn, DASHBOARD_NOT_BUILT_LINE)),
        _ => None,
    }
}

/// The dashboard guard's state, as plain values.
pub struct DashboardGuardView {
    /// The run the guard belongs to.
    pub run_id: RunId,
    /// The spawned dashboard's identity, mirrored into the session record.
    pub identity: Option<ProcInfo>,
    pub dry_run: bool,
    pub released: bool,
    pub disarmed: bool,
}

/// `launch-action: dashboard`: the spawned ALVR dashboard, closed on release
/// — by identity, never by bare pid.
pub struct DashboardGuard {
    identity: Option<ProcInfo>,
    run_id: RunId,
    dry_run: bool,
    released: bool,
    disarmed: bool,
}

impl View for DashboardGuard {
    type V = DashboardGuardView;

    closed spec fn view(&self) -> DashboardGuardView {
        DashboardGuardView {
            run_id: self.run_id,
            identity: self.identity,
            dry_run: self.dry_run,
            released: self.released,
            disarmed: self.disarmed,
        }
    }
}

/// What a dropped dashboard guard closes.
pub open spec fn dashboard_drop_spec(g: DashboardGuardView) -> Option<ProcInfo> {
    if g.released || g.disarmed || g.dry_run {
        None
    } else {
        g.identity
    }
}

/// What releasing the dashboard guard owes.
#[derive(Debug, Clone, Copy, PartialEq, Eq, Structural)]
pub enum DashboardRelease {
    /// Nothing was spawned: no signal, and the record is left as it is.
    Nothing,
    /// `/bin/kill -TERM <pid>`; print [`DASHBOARD_CLOSED_LINE`] only when the
    /// kill succeeded; then record the dashboard closed and save.
    Kill(u32),
    /// The identity no longer matches a live process: signal nothing, record
    /// the dashboard closed and save.
    Forget,
}

impl DashboardGuard {
    /// A guard that spawned nothing.
    pub fn inert(run_id: RunId, dry_run: bool) -> (g: DashboardGuard)
        ensures
            g@ == (DashboardGuardView {
                run_id,
                identity: None,
                dry_run,
                released: false,
                disarmed: false,
            }),
    {
        DashboardGuard { identity: None, run_id, dry_run, released: false, disarmed: false }
    }

    /// The dashboard came up as `identity`: the guard keeps it, and so does the
    /// session record (`dashboard`), immediately.
    pub fn spawned(&mut self, identity: ProcInfo, dashboard: &mut Option<ProcInfo>)
        ensures
            final(self)@ == (DashboardGuardView { identity: Some(identity), ..old(self)@ }),
            *final(dashboard) == Some(identity),
    {
        *dashboard = Some(identity.clone());
        self.identity = Some(identity);
    }

    /// The identity the guard holds, for the caller to check against the
    /// live process table before [`DashboardGuard::release_checked`].
    pub fn held(&self) -> (r: Option<ProcInfo>)
        ensures
            r == self@.identity,
    {
        self.identity.clone()
    }

    /// Release the guard once the caller has checked whether its identity is
    /// `still_same` process (pid **and** start time): signal it only then —
    /// a recycled pid is never signalled — and record the dashboard closed
    /// either way. A guard that spawned nothing owes nothing. Afterwards the
    /// guard is inert.
    pub fn release_checked(&mut self, still_same: bool) -> (r: DashboardRelease)
        ensures
            final(self)@ == (DashboardGuardView {
                identity: None,
                released: true,
                ..old(self)@
            }),
            old(self)@.identity is None ==> r == DashboardRelease::Nothing,
            (old(self)@.identity is Some && still_same) ==> r == DashboardRelease::Kill(old(self)@.identity->0.pid),
            (old(self)@.identity is Some && !still_same) ==> r == DashboardRelease::Forget,
    {
        self.released = true;
        match self.identity.take() {
            None => DashboardRelease::Nothing,
            Some(p) => if still_same {
                DashboardRelease::Kill(p.pid)
            } else {
                DashboardRelease::Forget
            },
        }
    }

    /// Detach: leave the dashboard open on purpose.
    pub fn disarm(&mut self)
        ensures
            final(self)@ == (DashboardGuardView { disarmed: true, ..old(self)@ }),
    {
        self.disarmed = true;
    }

    /// What a guard dropped without a release closes.
    pub fn drop_target(&self) -> (t: Option<ProcInfo>)
        ensures
            t == dashboard_drop_spec(self@),
    {
        if self.released || self.disarmed || self.dry_run {
            None
        } else {
            self.identity.clone()
        }
    }

    /// The run this guard belongs to.
    pub fn run_id(&self) -> (r: RunId)
        ensures
            r == self@.run_id,
    {
        self.run_id
    }
}

/// A released, disarmed or dry-run dashboard guard closes nothing when
/// dropped, and a second release has nothing left to signal.
pub proof fn lemma_dashboard_guard_undoes_once(g: DashboardGuardView)
    ensures
        g.released || g.disarmed || g.dry_run ==> dashboard_drop_spec(g) is None,
        dashboard_drop_spec(DashboardGuardView { identity: None, released: true, ..g }) is None,
        dashboard_drop_spec(DashboardGuardView { disarmed: true, ..g }) is None,
{
}

} // verus!
