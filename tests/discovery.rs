use opz_backup::backup::locate_device;
use opz_backup::mounts::{
    detect_platform, extract_device_name, find_device, parse_linux_mount_points,
    parse_macos_mount_points, parse_mount_points, parse_windows_mount_points, DeviceDiscovery,
    MountPoint, Platform,
};

fn mount(path: &str, device_name: &str) -> MountPoint {
    MountPoint { path: path.to_string(), device_name: device_name.to_string() }
}

const MACOS_LISTING: &str = "Filesystem      Size   Used  Avail Capacity iused ifree %iused  Mounted on
/dev/disk3s1s1 460Gi   10Gi  300Gi     4%  404k  3.1G    0%   /
devfs          204Ki  204Ki    0Bi   100%   706     0  100%   /dev
/dev/disk4s1   1.0Gi  500Mi  500Mi    50%     0     0  100%   /Volumes/OP-Z
/dev/disk5s1   8.0Gi  1.0Gi  7.0Gi    13%     0     0  100%   /Volumes/Backup
short row
";

const LINUX_LISTING: &str = "Filesystem      Size  Used Avail Use% Mounted on
/dev/sda1        50G   20G   28G  42% /
tmpfs           3.9G     0  3.9G   0% /dev/shm
/dev/sdb1       7.5G  1.2G  6.3G  16% /media/OP-Z
/dev/sdc1        16G  1.0G   15G   7% /mnt/usb
/dev/sdd1        16G  1.0G   15G   7% /home/media/x
too short
";

#[test]
fn macos_rows_with_volume_column_are_kept() {
    let r = parse_macos_mount_points(MACOS_LISTING);
    assert_eq!(r, vec![mount("/Volumes/OP-Z", "OP-Z"), mount("/Volumes/Backup", "Backup")]);
}

#[test]
fn linux_rows_under_media_or_mnt_are_kept() {
    let r = parse_linux_mount_points(LINUX_LISTING);
    assert_eq!(r, vec![mount("/media/OP-Z", "OP-Z"), mount("/mnt/usb", "usb")]);
}

#[test]
fn windows_listing_yields_nothing() {
    assert!(parse_windows_mount_points("Caption FreeSpace Size\nC: 1 2\n").is_empty());
    assert!(parse_mount_points(LINUX_LISTING, Platform::Windows).is_empty());
}

#[test]
fn dispatch_follows_platform() {
    assert_eq!(parse_mount_points(MACOS_LISTING, Platform::MacOS).len(), 2);
    assert_eq!(parse_mount_points(LINUX_LISTING, Platform::Linux).len(), 2);
    assert!(parse_mount_points(LINUX_LISTING, Platform::MacOS).is_empty());
}

#[test]
fn header_row_is_never_a_mount() {
    let text = "x x x x x /media/header\n";
    assert!(parse_linux_mount_points(text).is_empty());
    assert!(parse_linux_mount_points("").is_empty());
}

#[test]
fn short_rows_are_skipped() {
    let text = "h\n/dev/sdb1 /media/OP-Z\n\n   \n";
    assert!(parse_linux_mount_points(text).is_empty());
    let mac = "h\n/dev/disk4s1 1.0Gi /Volumes/OP-Z\n";
    assert!(parse_macos_mount_points(mac).is_empty());
}

#[test]
fn tabs_and_carriage_returns_separate_columns() {
    let text = "h\r\n/dev/sdb1\t7.5G 1.2G 6.3G 16%\t/mnt/OP-Z\r\n";
    assert_eq!(parse_linux_mount_points(text), vec![mount("/mnt/OP-Z", "OP-Z")]);
}

#[test]
fn device_name_extraction() {
    assert_eq!(extract_device_name("/Volumes/OP-Z"), "OP-Z");
    assert_eq!(extract_device_name("noslash"), "noslash");
    assert_eq!(extract_device_name(""), "Unknown");
    assert_eq!(extract_device_name("/media/"), "");
}

#[test]
fn first_matching_device_is_located() {
    let mounts = vec![mount("/a", "Foo"), mount("/b", "OP-Z-1"), mount("/c", "OP-Z-2")];
    assert_eq!(find_device(mounts, "OP-Z"), DeviceDiscovery::Found(mount("/b", "OP-Z-1")));
}

#[test]
fn matching_is_case_sensitive() {
    let mounts = vec![mount("/a", "op-z")];
    assert_eq!(find_device(mounts, "OP-Z"), DeviceDiscovery::NotFound);
    assert_eq!(find_device(Vec::new(), "OP-Z"), DeviceDiscovery::NotFound);
}

#[test]
fn listing_with_linux_row_locates_device() {
    let text = "Filesystem Size Used Avail Use% Mounted on\n/dev/sdb1 7.5G 1.2G 6.3G 16% /media/OP-Z\n";
    assert_eq!(
        locate_device(text, Platform::Linux, "OP-Z"),
        DeviceDiscovery::Found(mount("/media/OP-Z", "OP-Z"))
    );
    assert_eq!(locate_device(LINUX_LISTING, Platform::Linux, "Nope"), DeviceDiscovery::NotFound);
}

#[test]
fn platform_names() {
    assert_eq!(detect_platform("macos"), Platform::MacOS);
    assert_eq!(detect_platform("linux"), Platform::Linux);
    assert_eq!(detect_platform("windows"), Platform::Windows);
    assert_eq!(detect_platform("freebsd"), Platform::Linux);
}
