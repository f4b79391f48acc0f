use opz_backup::backup::{
    advance, create_backup_path, default_backup_dir, device_not_found_instructions, BackupConfig,
    BackupError, BackupEvent, BackupStep,
};
use opz_backup::mounts::Platform;
use opz_backup::timestamp::{format_timestamp, LocalTime};

const LISTING: &str = "Filesystem Size Used Avail Use% Mounted on\n/dev/sdb1 7.5G 1.2G 6.3G 16% /media/OP-Z\n";

fn config() -> BackupConfig {
    BackupConfig { backup_dir: "/home/u/opz-backups".to_string(), device_name_pattern: "OP-Z".to_string() }
}

#[test]
fn found_device_leads_to_destination() {
    let next = advance(
        BackupStep::ListMounts,
        BackupEvent::MountsListed(Ok(LISTING.to_string())),
        &config(),
        Platform::Linux,
        "2024-03-05_07-08-09",
    );
    assert_eq!(
        next,
        BackupStep::PrepareDestination {
            source: "/media/OP-Z".to_string(),
            destination: "/home/u/opz-backups/2024-03-05_07-08-09".to_string(),
        }
    );
}

#[test]
fn missing_device_ends_run_before_any_directory() {
    let header_only = "Filesystem Size Used Avail Use% Mounted on\n";
    let next = advance(
        BackupStep::ListMounts,
        BackupEvent::MountsListed(Ok(header_only.to_string())),
        &config(),
        Platform::Linux,
        "t",
    );
    assert_eq!(next, BackupStep::Finished(Err(BackupError::DeviceNotFound)));
    let lines = device_not_found_instructions("OP-Z");
    assert_eq!(
        lines,
        vec![
            "No OP-Z device found",
            "Instructions:",
            "1. Turn off the OP-Z device",
            "2. Press 'I' button and turn on the device",
            "3. Connect the device to USB",
            "4. Run this program again",
        ]
    );
}

#[test]
fn failed_listing_ends_run() {
    let e = BackupError::CommandExecution("df".to_string());
    let next = advance(
        BackupStep::ListMounts,
        BackupEvent::MountsListed(Err(e.clone())),
        &config(),
        Platform::Linux,
        "t",
    );
    assert_eq!(next, BackupStep::Finished(Err(e)));
}

#[test]
fn destination_then_copy_then_done() {
    let cfg = config();
    let prepared = advance(
        BackupStep::PrepareDestination { source: "/s".to_string(), destination: "/d".to_string() },
        BackupEvent::DestinationPrepared(Ok(())),
        &cfg,
        Platform::Linux,
        "t",
    );
    assert_eq!(prepared, BackupStep::Copy { source: "/s".to_string(), destination: "/d".to_string() });
    let done = advance(prepared, BackupEvent::CopyFinished(Ok(1234)), &cfg, Platform::Linux, "t");
    assert_eq!(done, BackupStep::Finished(Ok(1234)));
    let failed = advance(
        BackupStep::PrepareDestination { source: "/s".to_string(), destination: "/d".to_string() },
        BackupEvent::DestinationPrepared(Err(BackupError::DirectoryCreation("no".to_string()))),
        &cfg,
        Platform::Linux,
        "t",
    );
    assert_eq!(failed, BackupStep::Finished(Err(BackupError::DirectoryCreation("no".to_string()))));
    let copy_failed = advance(
        BackupStep::Copy { source: "/s".to_string(), destination: "/d".to_string() },
        BackupEvent::CopyFinished(Err(BackupError::CopyOperation("io".to_string()))),
        &cfg,
        Platform::Linux,
        "t",
    );
    assert_eq!(copy_failed, BackupStep::Finished(Err(BackupError::CopyOperation("io".to_string()))));
}

#[test]
fn unrelated_event_keeps_step() {
    let next = advance(BackupStep::ListMounts, BackupEvent::CopyFinished(Ok(1)), &config(), Platform::Linux, "t");
    assert_eq!(next, BackupStep::ListMounts);
}

#[test]
fn error_messages() {
    assert_eq!(BackupError::DeviceNotFound.message(), "OP-Z device not found");
    assert_eq!(BackupError::CommandExecution("x".to_string()).message(), "Command execution failed: x");
    assert_eq!(BackupError::InvalidOutput("x".to_string()).message(), "Invalid command output: x");
    assert_eq!(BackupError::DirectoryCreation("x".to_string()).message(), "Directory creation failed: x");
    assert_eq!(BackupError::CopyOperation("x".to_string()).message(), "Copy operation failed: x");
}

#[test]
fn backup_paths() {
    assert_eq!(create_backup_path("/home/u/opz-backups", "2024-01-02_03-04-05"), "/home/u/opz-backups/2024-01-02_03-04-05");
    assert_eq!(default_backup_dir(Some("/home/u")), "/home/u/opz-backups");
    assert_eq!(default_backup_dir(None), "./opz-backups");
    let cfg = BackupConfig::with_home(Some("/root"));
    assert_eq!(cfg.backup_dir, "/root/opz-backups");
    assert_eq!(cfg.device_name_pattern, "OP-Z");
}

#[test]
fn timestamps_are_zero_padded() {
    let t = LocalTime { year: 2024, month: 3, day: 5, hour: 7, minute: 8, second: 9 };
    assert_eq!(format_timestamp(&t), Some("2024-03-05_07-08-09".to_string()));
    let leap = LocalTime { year: 2024, month: 2, day: 29, hour: 23, minute: 59, second: 59 };
    assert_eq!(format_timestamp(&leap), Some("2024-02-29_23-59-59".to_string()));
    let early = LocalTime { year: 7, month: 12, day: 31, hour: 0, minute: 0, second: 0 };
    assert_eq!(format_timestamp(&early), Some("0007-12-31_00-00-00".to_string()));
}

#[test]
fn invalid_times_are_refused() {
    let feb = LocalTime { year: 2023, month: 2, day: 29, hour: 0, minute: 0, second: 0 };
    assert_eq!(format_timestamp(&feb), None);
    let century = LocalTime { year: 1900, month: 2, day: 29, hour: 0, minute: 0, second: 0 };
    assert_eq!(format_timestamp(&century), None);
    let hour = LocalTime { year: 2024, month: 1, day: 1, hour: 24, minute: 0, second: 0 };
    assert_eq!(format_timestamp(&hour), None);
    let year = LocalTime { year: 10000, month: 1, day: 1, hour: 0, minute: 0, second: 0 };
    assert_eq!(format_timestamp(&year), None);
}
