use sabrage_core::events::Severity;
use sabrage_core::stages::install::{
    backed_up_row, copy_failed_message, existing_backup_row, install_row, is_partial_backup_name,
    missing_build_output_message, registry_current, BackupState, CROSSOVER_NOT_FOUND,
    DXMT_ARTIFACTS_INCOMPLETE, PARTIAL_BACKUP_PREFIX,
};
use sabrage_core::stages::install::{backup_commit, partial_removal_warn, BackupCommit};
use sabrage_core::stages::install::reg_add_command;
use sabrage_core::stages::install::{host_registration_row, host_write_notice, registered_rows, HostWrite, REGISTRY_FLUSH_PENDING,};
use sabrage_core::stages::install::install_sections;

#[test]
fn registry_current_requires_all_three_literals_in_order_on_one_line() {
    // A missing file reads as nothing at all.
    assert!(!registry_current(""), "missing file is not current");
    assert!(registry_current(
        "[Software\\\\Khronos\\\\OpenXR\\\\1] 1700000000\n\"ActiveRuntime\"=\"C:\\\\openxr\\\\wineopenxr64.json\"\n"
    ));
    assert!(
        !registry_current("openxr wineopenxr64.json ActiveRuntime\n"),
        "out-of-order literals must not match"
    );
    // The three literals split over two lines do not count.
    assert!(!registry_current("\"ActiveRuntime\"=\"C:\\\\openxr\n\\\\wineopenxr64.json\"\n"));
    // A CRLF file still matches on its line.
    assert!(registry_current("x\r\nActiveRuntime openxr wineopenxr64.json\r\n"));
}

#[test]
fn install_rows_say_unchanged_installed_or_would_install() {
    assert_eq!(
        install_row(false, false, "/cx/lib/d3d11.dll"),
        (Severity::Info, "unchanged: /cx/lib/d3d11.dll".to_string())
    );
    assert_eq!(
        install_row(true, false, "/cx/lib/d3d11.dll"),
        (Severity::Success, "installed: /cx/lib/d3d11.dll".to_string())
    );
    assert_eq!(
        install_row(true, true, "/cx/lib/d3d11.dll"),
        (Severity::Success, "would install: /cx/lib/d3d11.dll".to_string())
    );
}

#[test]
fn install_dies_are_verbatim() {
    assert_eq!(
        missing_build_output_message("/repo/ext/wineopenxr/x.dll"),
        "missing build output /repo/ext/wineopenxr/x.dll — ./demo.sh build first"
    );
    assert_eq!(copy_failed_message("/a", "/b"), "copy failed: /a -> /b");
    assert_eq!(CROSSOVER_NOT_FOUND, "CrossOver.app not found");
    assert_eq!(
        DXMT_ARTIFACTS_INCOMPLETE,
        "ext/dxmt-artifacts missing or incomplete — ./demo.sh setup first (never half-applies \
         the overlay)"
    );
}

#[test]
fn the_stock_backup_is_reported_once_and_an_empty_one_is_left_alone() {
    assert_eq!(existing_backup_row(BackupState::Missing, "/bk"), None);
    assert_eq!(
        existing_backup_row(BackupState::Present, "/bk"),
        Some((Severity::Info, "stock DXMT backup already exists".to_string()))
    );
    assert_eq!(
        existing_backup_row(BackupState::Empty, "/bk"),
        Some((
            Severity::Warn,
            "stock DXMT backup /bk is empty — the stock copy is gone; reinstall CrossOver to \
             restore it (left alone: re-copying now would back up the fork)"
                .to_string()
        ))
    );
    assert_eq!(
        backed_up_row(true, "/bk"),
        (Severity::Info, "would back up stock DXMT -> /bk".to_string())
    );
    assert_eq!(
        backed_up_row(false, "/bk"),
        (Severity::Success, "backed up stock DXMT -> /bk".to_string())
    );
}

#[test]
fn a_partial_backup_is_recognised_by_its_prefix() {
    assert!(is_partial_backup_name("dxmt.stock-backup.partial-1234"));
    assert!(is_partial_backup_name(PARTIAL_BACKUP_PREFIX));
    assert!(!is_partial_backup_name("dxmt.stock-backup"));
    assert!(!is_partial_backup_name("x-dxmt.stock-backup.partial-1"));
}

#[test]
fn the_stock_capture_is_committed_only_when_complete_and_unclaimed() {
    assert_eq!(backup_commit(true, false), BackupCommit::Commit);
    assert_eq!(backup_commit(true, true), BackupCommit::Discard);
    assert_eq!(backup_commit(false, false), BackupCommit::Nothing);
    assert_eq!(backup_commit(false, true), BackupCommit::Nothing);
    assert_eq!(
        partial_removal_warn("/cx/lib/dxmt.stock-backup.partial-1", "Permission denied"),
        "could not remove the partial DXMT backup /cx/lib/dxmt.stock-backup.partial-1 \
         (Permission denied) — it is never trusted as the backup, and the next install sweeps it"
    );
}

#[test]
fn reg_add_is_install_shs_argv_under_the_bottles_prefix() {
    let (args, env) = reg_add_command("Steam", "/b/Steam");
    assert_eq!(
        args,
        vec![
            "--bottle",
            "Steam",
            "--no-update",
            "reg",
            "add",
            r"HKLM\Software\Khronos\OpenXR\1",
            "/v",
            "ActiveRuntime",
            "/t",
            "REG_SZ",
            "/d",
            r"C:\openxr\wineopenxr64.json",
            "/f",
        ]
    );
    assert_eq!(
        env,
        vec![
            ("WINEPREFIX".to_string(), "/b/Steam".to_string()),
            ("CX_BOTTLE".to_string(), "Steam".to_string()),
        ]
    );
}

#[test]
fn the_registration_rows_never_claim_what_a_dry_run_did_not_do() {
    assert_eq!(
        registered_rows(true, false),
        vec![(Severity::Info, "would register ActiveRuntime")]
    );
    assert_eq!(
        registered_rows(false, true),
        vec![(Severity::Success, "ActiveRuntime registered")]
    );
    assert_eq!(
        registered_rows(false, false),
        vec![
            (Severity::Warn, REGISTRY_FLUSH_PENDING),
            (Severity::Success, "ActiveRuntime registered")
        ]
    );
    assert_eq!(
        host_registration_row(HostWrite::Skipped),
        (Severity::Info, "host registration already current")
    );
    assert_eq!(
        host_registration_row(HostWrite::Written),
        (Severity::Success, "host registration written")
    );
    assert_eq!(
        host_registration_row(HostWrite::Planned),
        (Severity::Info, "would write host registration")
    );
    assert_eq!(
        host_write_notice("/Library/x.json"),
        "writing /Library/x.json (needs sudo)..."
    );
}

#[test]
fn the_four_layers_are_announced_in_order() {
    assert_eq!(
        install_sections("/Applications/CrossOver.app/Contents/SharedSupport/CrossOver", "Steam", "/h.json"),
        vec![
            "global DXMT overlay (/Applications/CrossOver.app/Contents/SharedSupport/CrossOver/lib/dxmt)",
            "global wineopenxr (/Applications/CrossOver.app/Contents/SharedSupport/CrossOver/lib/wine)",
            "bottle 'Steam'",
            "host OpenXR registration (/h.json)",
        ]
    );
}
