use account_switch::layout::{account_path, account_yaml_path, plan_account_folder, FolderSetup, generate_data_folder_name, join, sentinel_path, Stamp, SENTINEL_FOLDER};
use account_switch::redirect::{attributes_mark_alias, check_create, mount_point_target, check_remove, normalize_target, CreateProbe, RedirectError, Removal};
use account_switch::switch::{
    chosen_path, classify_live, is_fatal, plan_first_setup, plan_switch, switch_guard, switch_target, LiveKind, SwitchError, SwitchRun, SwitchStep,
};
use account_switch::transfer::{
    check_destinations, check_source, is_fatal_transfer_error, plan_deletions, CopyCheck, DestProbe, TransferError,
    VerifyFailure,
};
use account_switch::text::{decimal_string, signed_decimal};
use account_switch::client::{check_riot_client_running, check_valorant_running, launch_candidates};

fn stamp(year: u16, month: u8, day: u8, hour: u8, minute: u8, second: u8) -> Stamp {
    Stamp { year, month, day, hour, minute, second }
}

fn copied(source: &str, dest: &str, source_len: u64, dest_len: u64) -> CopyCheck {
    CopyCheck {
        source: source.to_string(),
        dest: dest.to_string(),
        dest_exists: true,
        source_is_file: true,
        source_len,
        dest_len,
    }
}

/// Runs a switch in which every step succeeds and returns the steps performed.
fn run_all(live: LiveKind, target_exists: bool) -> Vec<SwitchStep> {
    let mut run = SwitchRun::new(live, target_exists);
    let mut done = Vec::new();
    while let Some(step) = run.current() {
        done.push(step);
        run.report(true);
    }
    assert!(run.finished());
    done
}

#[test]
fn folder_name_is_padded_id_and_timestamp() {
    assert_eq!(generate_data_folder_name(7, &stamp(2024, 1, 1, 12, 0, 0)), "007_20240101120000");
    assert_eq!(generate_data_folder_name(1234, &stamp(2023, 11, 5, 9, 8, 7)), "1234_20231105090807");
    assert_eq!(generate_data_folder_name(0, &stamp(999, 12, 31, 23, 59, 59)), "000_09991231235959");
    assert_eq!(generate_data_folder_name(-5, &stamp(2024, 1, 1, 0, 0, 0)), "-05_20240101000000");
}

#[test]
fn folder_names_differ_by_time() {
    let a = generate_data_folder_name(7, &stamp(2024, 1, 1, 12, 0, 0));
    let b = generate_data_folder_name(7, &stamp(2024, 1, 1, 12, 0, 1));
    assert_ne!(a, b);
}

#[test]
fn paths_join_with_one_separator() {
    assert_eq!(join("C:\\Data", "x"), "C:\\Data\\x");
    assert_eq!(join("C:\\Data\\", "x"), "C:\\Data\\x");
    assert_eq!(join("/tmp/data/", "x"), "/tmp/data/x");
    assert_eq!(join("", "x"), "x");
    assert_eq!(sentinel_path("C:\\Data"), "C:\\Data\\_unselected");
    assert_eq!(SENTINEL_FOLDER, "_unselected");
    assert_eq!(account_path("C:\\Data", "007_20240101120000"), "C:\\Data\\007_20240101120000");
}

#[test]
fn decimal_digits() {
    assert_eq!(decimal_string(0), "0");
    assert_eq!(decimal_string(42), "42");
    assert_eq!(decimal_string(u64::MAX), "18446744073709551615");
}

#[test]
fn switch_to_account_from_nothing() {
    // Account 7 with its folder, data root empty, live path absent.
    let target = switch_target("C:\\Data", Some(7), Some("007_20240101120000")).unwrap();
    assert_eq!(target, "C:\\Data\\007_20240101120000");
    let steps = run_all(LiveKind::Absent, false);
    assert_eq!(
        steps,
        vec![SwitchStep::CreateTarget, SwitchStep::ForceRemoveLive, SwitchStep::CreateAlias, SwitchStep::RecordActive]
    );
}

#[test]
fn switch_rescues_real_live_directory() {
    let steps = run_all(LiveKind::RealDirectory, false);
    assert_eq!(
        steps,
        vec![
            SwitchStep::CreateTarget,
            SwitchStep::RescueLive,
            SwitchStep::RemoveLiveDir,
            SwitchStep::ForceRemoveLive,
            SwitchStep::CreateAlias,
            SwitchStep::RecordActive,
        ]
    );
    let checks = vec![copied("live\\settings.dat", "C:\\Data\\007\\settings.dat", 100, 100)];
    assert_eq!(plan_deletions(&checks), Ok(vec!["live\\settings.dat".to_string()]));
}

#[test]
fn switch_to_no_account_creates_sentinel() {
    let target = switch_target("C:\\Data", None, None).unwrap();
    assert_eq!(target, "C:\\Data\\_unselected");
    let steps = run_all(LiveKind::Redirect, false);
    assert_eq!(
        steps,
        vec![
            SwitchStep::CreateTarget,
            SwitchStep::RemoveAlias,
            SwitchStep::ForceRemoveLive,
            SwitchStep::CreateAlias,
            SwitchStep::RecordActive,
        ]
    );
}

#[test]
fn second_switch_to_same_target_moves_no_data() {
    let first = run_all(LiveKind::RealDirectory, true);
    assert!(first.contains(&SwitchStep::RescueLive));
    // After the first switch the live path is an alias to an existing target.
    let second = run_all(LiveKind::Redirect, true);
    assert!(!second.contains(&SwitchStep::RescueLive));
    assert_eq!(
        second,
        vec![SwitchStep::RemoveAlias, SwitchStep::ForceRemoveLive, SwitchStep::CreateAlias, SwitchStep::RecordActive]
    );
}

#[test]
fn account_without_folder_is_refused() {
    assert_eq!(switch_target("C:\\Data", Some(3), None), Err(SwitchError::NoDataFolder));
}

#[test]
fn switch_refused_while_running() {
    assert_eq!(switch_guard(true, false), Err(SwitchError::ClientRunning));
    assert_eq!(switch_guard(true, true), Err(SwitchError::ClientRunning));
    assert_eq!(switch_guard(false, true), Err(SwitchError::GameRunning));
    assert_eq!(switch_guard(false, false), Ok(()));
}

#[test]
fn failed_alias_creation_stops_before_recording() {
    let mut run = SwitchRun::new(LiveKind::Redirect, true);
    assert_eq!(run.current(), Some(SwitchStep::RemoveAlias));
    run.report(true);
    assert_eq!(run.current(), Some(SwitchStep::ForceRemoveLive));
    run.report(false);
    assert!(!run.has_failed());
    assert_eq!(run.current(), Some(SwitchStep::CreateAlias));
    run.report(false);
    assert!(run.has_failed());
    assert_eq!(run.current(), None);
    assert!(!run.finished());
}

#[test]
fn only_forced_removal_is_best_effort() {
    assert!(!is_fatal(SwitchStep::ForceRemoveLive));
    assert!(is_fatal(SwitchStep::RescueLive));
    assert!(is_fatal(SwitchStep::CreateAlias));
    assert!(is_fatal(SwitchStep::RecordActive));
}

#[test]
fn live_path_classification() {
    assert_eq!(classify_live(true, true, true), LiveKind::Redirect);
    assert_eq!(classify_live(false, true, false), LiveKind::Redirect);
    assert_eq!(classify_live(true, false, true), LiveKind::RealDirectory);
    assert_eq!(classify_live(false, false, false), LiveKind::Absent);
    assert_eq!(classify_live(true, false, false), LiveKind::Absent);
}

#[test]
fn verification_failure_blocks_deletion() {
    let checks = vec![
        copied("live\\f1", "t\\f1", 10, 10),
        copied("live\\f2", "t\\f2", 20, 7),
    ];
    assert_eq!(
        plan_deletions(&checks),
        Err(TransferError::VerificationFailed("t\\f2".to_string(), VerifyFailure::SizeMismatch))
    );
    let mut missing = copied("live\\f1", "t\\f1", 10, 10);
    missing.dest_exists = false;
    assert_eq!(
        plan_deletions(&vec![missing, copied("live\\f2", "t\\f2", 20, 7)]),
        Err(TransferError::VerificationFailed("t\\f1".to_string(), VerifyFailure::DestinationMissing))
    );
}

#[test]
fn directories_are_checked_for_existence_only() {
    let mut dir = copied("live\\sub", "t\\sub", 4096, 0);
    dir.source_is_file = false;
    assert_eq!(plan_deletions(&vec![dir]), Ok(vec!["live\\sub".to_string()]));
    assert_eq!(plan_deletions(&vec![]), Ok(vec![]));
}

#[test]
fn transfer_source_checks() {
    assert_eq!(check_source(false, false), Err(TransferError::SourceMissing));
    assert_eq!(check_source(true, false), Err(TransferError::SourceNotDirectory));
    assert_eq!(check_source(true, true), Ok(()));
}

#[test]
fn alias_creation_preconditions() {
    let good = CreateProbe { target_exists: true, target_is_dir: true, link_parent_exists: true, link_exists: false };
    assert_eq!(check_create(&good), Ok(()));
    assert_eq!(check_create(&CreateProbe { target_exists: false, ..good }), Err(RedirectError::TargetMissing));
    assert_eq!(check_create(&CreateProbe { target_is_dir: false, ..good }), Err(RedirectError::TargetNotDirectory));
    assert_eq!(check_create(&CreateProbe { link_parent_exists: false, ..good }), Err(RedirectError::ParentMissing));
    assert_eq!(check_create(&CreateProbe { link_exists: true, ..good }), Err(RedirectError::LinkAlreadyExists));
}

#[test]
fn alias_removal_rules() {
    assert_eq!(check_remove(false, false), Ok(Removal::NothingThere));
    assert_eq!(check_remove(true, true), Ok(Removal::RemoveAlias));
    assert_eq!(check_remove(true, false), Err(RedirectError::NotARedirect));
}

#[test]
fn resolved_target_loses_verbatim_prefix() {
    assert_eq!(normalize_target("\\\\?\\C:\\Data\\x"), "C:\\Data\\x");
    assert_eq!(normalize_target("\\??\\C:\\T"), "C:\\T");
    assert_eq!(normalize_target("C:\\Data\\x"), "C:\\Data\\x");
    assert_eq!(normalize_target("\\\\?"), "\\\\?");
    assert_eq!(normalize_target(""), "");
}

fn reparse_buffer(tag: u32, name: &str, pad_units: usize) -> Vec<u8> {
    let units: Vec<u16> = name.encode_utf16().collect();
    let mut b = Vec::new();
    b.extend_from_slice(&tag.to_le_bytes());
    b.extend_from_slice(&0u16.to_le_bytes());
    b.extend_from_slice(&0u16.to_le_bytes());
    b.extend_from_slice(&((pad_units * 2) as u16).to_le_bytes());
    b.extend_from_slice(&((units.len() * 2) as u16).to_le_bytes());
    b.extend_from_slice(&0u16.to_le_bytes());
    b.extend_from_slice(&0u16.to_le_bytes());
    for _ in 0..pad_units {
        b.extend_from_slice(&0x41u16.to_le_bytes());
    }
    for u in units {
        b.extend_from_slice(&u.to_le_bytes());
    }
    b
}

#[test]
fn junction_target_read_from_reparse_buffer() {
    let b = reparse_buffer(0xA000_0003, "\\\\?\\C:\\Data\\007", 0);
    assert_eq!(mount_point_target(&b), Ok("C:\\Data\\007".to_string()));
    let nt = reparse_buffer(0xA000_0003, "\\??\\C:\\T", 0);
    assert_eq!(mount_point_target(&nt), Ok("C:\\T".to_string()));
    let shifted = reparse_buffer(0xA000_0003, "D:\\x", 3);
    assert_eq!(mount_point_target(&shifted), Ok("D:\\x".to_string()));
    let symlink = reparse_buffer(0xA000_000C, "C:\\x", 0);
    assert_eq!(mount_point_target(&symlink), Err(RedirectError::NotARedirect));
    let mut truncated = reparse_buffer(0xA000_0003, "C:\\x", 0);
    truncated.pop();
    assert!(matches!(mount_point_target(&truncated), Err(RedirectError::PlatformOperationFailed(_))));
    assert!(mount_point_target(&vec![3, 0, 0, 0xA0]).is_err());
}

#[test]
fn reparse_attribute_detection() {
    assert!(attributes_mark_alias(0x410, 0xA000_0003));
    assert!(!attributes_mark_alias(0x410, 0xA000_000C));
    assert!(!attributes_mark_alias(0x10, 0xA000_0003));
    assert!(!attributes_mark_alias(0xFFFF_FFFF, 0xA000_0003));
}

#[test]
fn private_settings_path_inside_account_folder() {
    assert_eq!(
        account_yaml_path("C:\\Data", Some("007_20240101120000")),
        Some("C:\\Data\\007_20240101120000\\RiotGamesPrivateSettings.yaml".to_string())
    );
    assert_eq!(account_yaml_path("C:\\Data", None), None);
}

#[test]
fn new_account_folder_setup() {
    assert_eq!(plan_account_folder(true, true), FolderSetup::AdoptSentinel);
    assert_eq!(plan_account_folder(true, false), FolderSetup::CreateMarked);
    assert_eq!(plan_account_folder(false, true), FolderSetup::CreateMarked);
    assert_eq!(plan_account_folder(false, false), FolderSetup::CreateMarked);
}

#[test]
fn first_setup_moves_live_data_under_sentinel() {
    assert_eq!(plan_first_setup(LiveKind::Redirect), vec![]);
    assert_eq!(plan_first_setup(LiveKind::Absent), vec![SwitchStep::CreateTarget, SwitchStep::CreateAlias]);
    assert_eq!(
        plan_first_setup(LiveKind::RealDirectory),
        vec![SwitchStep::CreateTarget, SwitchStep::RescueLive, SwitchStep::RemoveLiveDir, SwitchStep::CreateAlias]
    );
    let mut run = SwitchRun::from_steps(plan_first_setup(LiveKind::RealDirectory));
    assert_eq!(run.current(), Some(SwitchStep::CreateTarget));
    run.report(true);
    run.report(false);
    assert!(run.has_failed());
    assert_eq!(run.current(), None);
}

#[test]
fn given_path_wins_over_configured() {
    assert_eq!(chosen_path(Some("a".to_string()), Some("b".to_string())), Some("a".to_string()));
    assert_eq!(chosen_path(None, Some("b".to_string())), Some("b".to_string()));
    assert_eq!(chosen_path(None, None), None);
}

#[test]
fn stamp_parts_must_be_in_range() {
    assert_eq!(Stamp::checked(2024, 1, 1, 12, 0, 0), Some(stamp(2024, 1, 1, 12, 0, 0)));
    assert_eq!(Stamp::checked(2024, 0, 1, 12, 0, 0), None);
    assert_eq!(Stamp::checked(2024, 13, 1, 12, 0, 0), None);
    assert_eq!(Stamp::checked(2024, 1, 32, 12, 0, 0), None);
    assert_eq!(Stamp::checked(2024, 1, 1, 24, 0, 0), None);
    assert_eq!(Stamp::checked(2024, 1, 1, 0, 60, 0), None);
    assert_eq!(Stamp::checked(2024, 1, 1, 0, 0, 61), None);
    assert_eq!(Stamp::checked(10000, 1, 1, 0, 0, 0), None);
    assert!(Stamp::checked(2016, 12, 31, 23, 59, 60).is_some());
}

#[test]
fn launcher_candidates_start_with_configured_path() {
    let with = launch_candidates(Some("D:\\Games\\RiotClientServices.exe".to_string()));
    assert_eq!(with.len(), 4);
    assert_eq!(with[0], "D:\\Games\\RiotClientServices.exe");
    assert_eq!(with[1], "C:\\Riot Games\\Riot Client\\RiotClientServices.exe");
    assert_eq!(with[3], "C:\\Program Files (x86)\\Riot Games\\Riot Client\\RiotClientServices.exe");
    assert_eq!(launch_candidates(Some(String::new())).len(), 3);
    assert_eq!(launch_candidates(None)[0], "C:\\Riot Games\\Riot Client\\RiotClientServices.exe");
}

fn probe(name: &str, dest_exists: bool, dest_is_empty_file: bool) -> DestProbe {
    DestProbe { name: name.to_string(), dest: format!("t\\{}", name), dest_exists, dest_is_empty_file }
}

#[test]
fn transfer_refuses_taken_destinations() {
    assert_eq!(check_destinations(&vec![probe("a", false, false)], "t"), Ok(()));
    assert_eq!(check_destinations(&vec![], "t"), Ok(()));
    assert_eq!(
        check_destinations(&vec![probe("a", false, false), probe("settings.dat", true, false), probe("b", true, false)], "t"),
        Err(TransferError::DestinationExists("t\\settings.dat".to_string()))
    );
    // An empty file named otherwise is still somebody's file.
    assert!(check_destinations(&vec![probe("x", true, true)], "t").is_err());
}

#[test]
fn target_marker_may_be_replaced() {
    // A stale copy of the folder carries its marker; the fresh empty marker does not block it.
    assert_eq!(check_destinations(&vec![probe("_unselected", true, true), probe("f", false, false)], "_unselected"), Ok(()));
    // A non-empty file of that name is not a marker.
    assert!(check_destinations(&vec![probe("_unselected", true, false)], "_unselected").is_err());
}

#[test]
fn only_delete_failures_are_non_fatal() {
    assert!(!is_fatal_transfer_error(&TransferError::DeleteFailed("p".to_string(), "busy".to_string())));
    assert!(is_fatal_transfer_error(&TransferError::DestinationExists("p".to_string())));
    assert!(is_fatal_transfer_error(&TransferError::VerificationFailed("p".to_string(), VerifyFailure::SizeMismatch)));
    assert!(is_fatal_transfer_error(&TransferError::SourceMissing));
}

#[test]
fn junction_target_decodes_surrogates() {
    let mut b = reparse_buffer(0xA000_0003, "C:\\\u{1F600}", 0);
    assert_eq!(mount_point_target(&b), Ok("C:\\\u{1F600}".to_string()));
    // A lone high surrogate decodes to the replacement character.
    b = reparse_buffer(0xA000_0003, "C:\\x", 0);
    let n = b.len();
    b[n - 2] = 0x00;
    b[n - 1] = 0xD8;
    assert_eq!(mount_point_target(&b), Ok("C:\\\u{FFFD}".to_string()));
}

#[test]
fn test_create_junction_with_nonexistent_target() {
    let probe = CreateProbe { target_exists: false, target_is_dir: false, link_parent_exists: true, link_exists: false };
    let result = check_create(&probe);
    assert!(result.is_err());
    assert!(result.unwrap_err().message().contains("Target directory does not exist"));
}

#[test]
fn test_check_riot_client_running_does_not_panic() {
    let _ = check_riot_client_running(None, || None);
}

#[test]
fn running_status_prefers_cached_flag() {
    assert!(check_riot_client_running(Some(true), || Some(false)));
    assert!(!check_valorant_running(Some(false), || Some(true)));
    assert!(check_valorant_running(None, || Some(true)));
    assert!(!check_riot_client_running(None, || Some(false)));
    assert!(!check_riot_client_running(None, || None));
}

#[test]
fn signed_decimal_digits() {
    assert_eq!(signed_decimal(0), "0");
    assert_eq!(signed_decimal(-7), "-7");
    assert_eq!(signed_decimal(i64::MIN), "-9223372036854775808");
    assert_eq!(signed_decimal(i64::MAX), "9223372036854775807");
}
