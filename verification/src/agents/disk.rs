//! The disk agent's configuration: its schedule and the file systems it
//! reports on. Its usage record carries a floating point share and is
//! assembled by the caller around the library.

use vstd::prelude::*;

use crate::settings::MixConfig;

verus! {

/// The schedule used when none is configured: every thirty minutes.
pub fn default_cron() -> (r: String)
    ensures
        r@ == "0 0/30 * * * ?"@,
{
    let r = "0 0/30 * * * ?";
    r.to_owned()
}

/// The file systems reported on when none are configured.
pub fn default_file_system() -> (r: Vec<String>)
    ensures
        r.deep_view() =~= seq!["apfs"@, "ntfs"@, "fat32"@, "xfs"@, "ext3"@, "ext4"@],
{
    let mut r: Vec<String> = Vec::new();
    let apfs = "apfs";
    let ntfs = "ntfs";
    let fat32 = "fat32";
    let xfs = "xfs";
    let ext3 = "ext3";
    let ext4 = "ext4";
    r.push(apfs.to_owned());
    r.push(ntfs.to_owned());
    r.push(fat32.to_owned());
    r.push(xfs.to_owned());
    r.push(ext3.to_owned());
    r.push(ext4.to_owned());
    proof {
        assert(r.deep_view() =~= seq!["apfs"@, "ntfs"@, "fat32"@, "xfs"@, "ext3"@, "ext4"@]);
    }
    r
}

/// The disk agent's configuration: its schedule and the file systems
/// whose mounts are reported.
pub struct DiskAgentConfig {
    pub cron: String,
    pub file_system: Vec<String>,
}

impl Default for DiskAgentConfig {
    fn default() -> (r: DiskAgentConfig)
        ensures
            r.cron@ == "0 0/30 * * * ?"@,
            r.file_system.deep_view() =~= seq![
                "apfs"@,
                "ntfs"@,
                "fat32"@,
                "xfs"@,
                "ext3"@,
                "ext4"@,
            ],
    {
        DiskAgentConfig { cron: default_cron(), file_system: default_file_system() }
    }
}

impl MixConfig for DiskAgentConfig {
    fn new() -> Self {
        DiskAgentConfig::default()
    }
}

} // verus!
