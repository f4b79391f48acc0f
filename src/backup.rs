//! One backup run: its configuration, its errors, and the decisions that
//! carry it from listing the mounts to the end of the copy.

use vstd::prelude::*;
use vstd::string::*;
use crate::text::contains;
use crate::mounts::{
    DeviceDiscovery, Platform, discovery_of, find_device, is_first_match,
    listing_mounts, parse_mount_points,
};

verus! {

/// Why a backup run ended without copying.
#[derive(Debug, Clone, PartialEq, Eq)]
pub enum BackupError {
    DeviceNotFound,
    CommandExecution(String),
    InvalidOutput(String),
    DirectoryCreation(String),
    CopyOperation(String),
}

/// The text a run reports for an error.
pub open spec fn error_text(e: BackupError) -> Seq<char> {
    match e {
        BackupError::DeviceNotFound => "OP-Z device not found"@,
        BackupError::CommandExecution(m) => "Command execution failed: "@ + m@,
        BackupError::InvalidOutput(m) => "Invalid command output: "@ + m@,
        BackupError::DirectoryCreation(m) => "Directory creation failed: "@ + m@,
        BackupError::CopyOperation(m) => "Copy operation failed: "@ + m@,
    }
}

impl BackupError {
    /// The message shown to the user for this error.
    pub fn message(&self) -> (r: String)
        ensures
            r@ == error_text(*self),
    {
        match self {
            BackupError::DeviceNotFound => String::from_str("OP-Z device not found"),
            BackupError::CommandExecution(m) => String::from_str(
                "Command execution failed: ",
            ).concat(m.as_str()),
            BackupError::InvalidOutput(m) => String::from_str("Invalid command output: ").concat(
                m.as_str(),
            ),
            BackupError::DirectoryCreation(m) => String::from_str(
                "Directory creation failed: ",
            ).concat(m.as_str()),
            BackupError::CopyOperation(m) => String::from_str("Copy operation failed: ").concat(
                m.as_str(),
            ),
        }
    }
}

/// Where backups go and which device is backed up.
#[derive(Debug, Clone, PartialEq, Eq)]
pub struct BackupConfig {
    pub backup_dir: String,
    pub device_name_pattern: String,
}

/// The default backup root under a home directory (the current directory
/// when there is none).
pub open spec fn default_dir_of(home: Option<Seq<char>>) -> Seq<char> {
    match home {
        Some(h) => h + "/opz-backups"@,
        None => "."@ + "/opz-backups"@,
    }
}

/// The backup root `opz-backups` under `home`, or under `.` when no home
/// directory is known.
pub fn default_backup_dir(home: Option<&str>) -> (r: String)
    ensures
        r@ == default_dir_of(
            match home {
                Some(h) => Some(h@),
                None => None,
            },
        ),
{
    match home {
        Some(h) => String::from_str(h).concat("/opz-backups"),
        None => String::from_str(".").concat("/opz-backups"),
    }
}

impl BackupConfig {
    /// The usual configuration: back up the device named like `OP-Z` into
    /// the default backup root under `home`.
    pub fn with_home(home: Option<&str>) -> (r: BackupConfig)
        ensures
            r.backup_dir@ == default_dir_of(
                match home {
                    Some(h) => Some(h@),
                    None => None,
                },
            ),
            r.device_name_pattern@ == "OP-Z"@,
    {
        BackupConfig {
            backup_dir: default_backup_dir(home),
            device_name_pattern: String::from_str("OP-Z"),
        }
    }
}

/// The directory for one snapshot: the timestamp under the backup root.
pub open spec fn backup_path_of(base: Seq<char>, timestamp: Seq<char>) -> Seq<char> {
    base + "/"@ + timestamp
}

/// The snapshot directory `base/timestamp`.
pub fn create_backup_path(base_dir: &str, timestamp: &str) -> (r: String)
    ensures
        r@ == backup_path_of(base_dir@, timestamp@),
{
    String::from_str(base_dir).concat("/").concat(timestamp)
}

/// The mount point of the device named like `pattern` in a disk-usage
/// listing: the first qualifying row whose device name contains it.
pub fn locate_device(df_output: &str, platform: Platform, pattern: &str) -> (r: DeviceDiscovery)
    ensures
        discovery_of(r, listing_mounts(platform, df_output@), pattern@),
{
    let mounts = parse_mount_points(df_output, platform);
    find_device(mounts, pattern)
}

/// What a run does next, or how it ended.
#[derive(Debug, PartialEq, Eq)]
pub enum BackupStep {
    /// Run the disk-usage listing for the platform.
    ListMounts,
    /// Create the snapshot directory (nothing happens if it exists).
    PrepareDestination { source: String, destination: String },
    /// Copy the contents of the device into the snapshot directory.
    Copy { source: String, destination: String },
    /// The run is over: bytes copied, or the error that ended it.
    Finished(Result<u64, BackupError>),
}

/// What came of the work a step asked for.
#[derive(Debug, PartialEq, Eq)]
pub enum BackupEvent {
    MountsListed(Result<String, BackupError>),
    DestinationPrepared(Result<(), BackupError>),
    CopyFinished(Result<u64, BackupError>),
}

/// `next` is the step after `step` once `event` came in, for a run with
/// `config` on `platform` whose snapshot is named `timestamp`.
pub open spec fn steps_to(
    step: BackupStep,
    event: BackupEvent,
    config: BackupConfig,
    platform: Platform,
    timestamp: Seq<char>,
    next: BackupStep,
) -> bool {
    match (step, event) {
        (BackupStep::ListMounts, BackupEvent::MountsListed(Err(e))) => next
            == BackupStep::Finished(Err(e)),
        (BackupStep::ListMounts, BackupEvent::MountsListed(Ok(text))) => {
            let mounts = listing_mounts(platform, text@);
            let pattern = config.device_name_pattern@;
            if exists|i: int| is_first_match(mounts, pattern, i) {
                exists|i: int|
                    #![trigger mounts[i]]
                    is_first_match(mounts, pattern, i) && match next {
                        BackupStep::PrepareDestination { source, destination } => source@
                            == mounts[i].0 && destination@ == backup_path_of(
                            config.backup_dir@,
                            timestamp,
                        ),
                        _ => false,
                    }
            } else {
                next == BackupStep::Finished(Err(BackupError::DeviceNotFound))
            }
        },
        (
            BackupStep::PrepareDestination { source, destination },
            BackupEvent::DestinationPrepared(Ok(())),
        ) => next == BackupStep::Copy { source, destination },
        (BackupStep::PrepareDestination { .. }, BackupEvent::DestinationPrepared(Err(e))) => next
            == BackupStep::Finished(Err(e)),
        (BackupStep::Copy { .. }, BackupEvent::CopyFinished(r)) => next == BackupStep::Finished(
            r,
        ),
        _ => next == step,
    }
}

/// Carries a run one step on. A failed listing, a missing device, a
/// directory that could not be made and a failed copy each end the run with
/// their error; nothing is retried. An event that does not answer the
/// current step leaves it as it is.
pub fn advance(
    step: BackupStep,
    event: BackupEvent,
    config: &BackupConfig,
    platform: Platform,
    timestamp: &str,
) -> (next: BackupStep)
    ensures
        steps_to(step, event, *config, platform, timestamp@, next),
{
    match (step, event) {
        (BackupStep::ListMounts, BackupEvent::MountsListed(Err(e))) => BackupStep::Finished(
            Err(e),
        ),
        (BackupStep::ListMounts, BackupEvent::MountsListed(Ok(text))) => {
            let found = locate_device(
                text.as_str(),
                platform,
                config.device_name_pattern.as_str(),
            );
            match found {
                DeviceDiscovery::NotFound => BackupStep::Finished(Err(BackupError::DeviceNotFound)),
                DeviceDiscovery::Found(m) => {
                    let destination = create_backup_path(config.backup_dir.as_str(), timestamp);
                    BackupStep::PrepareDestination { source: m.path, destination }
                },
            }
        },
        (
            BackupStep::PrepareDestination { source, destination },
            BackupEvent::DestinationPrepared(Ok(())),
        ) => BackupStep::Copy { source, destination },
        (BackupStep::PrepareDestination { .. }, BackupEvent::DestinationPrepared(Err(e))) => {
            BackupStep::Finished(Err(e))
        },
        (BackupStep::Copy { .. }, BackupEvent::CopyFinished(r)) => BackupStep::Finished(r),
        (step, _) => step,
    }
}

/// The lines shown when the device was not found: what was looked for, and
/// how to reconnect the device in disk mode.
pub open spec fn instructions_of(pattern: Seq<char>) -> Seq<Seq<char>> {
    seq![
        "No "@ + pattern + " device found"@,
        "Instructions:"@,
        "1. Turn off the OP-Z device"@,
        "2. Press 'I' button and turn on the device"@,
        "3. Connect the device to USB"@,
        "4. Run this program again"@,
    ]
}

/// The reconnect instructions for a device named like `device_pattern`.
pub fn device_not_found_instructions(device_pattern: &str) -> (r: Vec<String>)
    ensures
        r@.map_values(|l: String| l@) == instructions_of(device_pattern@),
{
    let mut r: Vec<String> = Vec::new();
    r.push(String::from_str("No ").concat(device_pattern).concat(" device found"));
    r.push(String::from_str("Instructions:"));
    r.push(String::from_str("1. Turn off the OP-Z device"));
    r.push(String::from_str("2. Press 'I' button and turn on the device"));
    r.push(String::from_str("3. Connect the device to USB"));
    r.push(String::from_str("4. Run this program again"));
    assert(r@.map_values(|l: String| l@) =~= instructions_of(device_pattern@));
    r
}

/// When no mount point of the listing matches the pattern, the run ends with
/// `DeviceNotFound` right after the listing: no destination is prepared.
pub proof fn lemma_missing_device_ends_run(
    text: String,
    config: BackupConfig,
    platform: Platform,
    timestamp: Seq<char>,
    next: BackupStep,
)
    requires
        forall|i: int|
            0 <= i < listing_mounts(platform, text@).len() ==> !contains(
                #[trigger] listing_mounts(platform, text@)[i].1,
                config.device_name_pattern@,
            ),
        steps_to(
            BackupStep::ListMounts,
            BackupEvent::MountsListed(Ok(text)),
            config,
            platform,
            timestamp,
            next,
        ),
    ensures
        next == BackupStep::Finished(Err(BackupError::DeviceNotFound)),
{
}

} // verus!
