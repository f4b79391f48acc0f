//! Backup of a removable music device: finding its mount point in a
//! disk-usage listing, tracking copy progress, and sequencing one run.

pub mod text;
pub mod mounts;
pub mod progress;
pub mod backup;
pub mod timestamp;
