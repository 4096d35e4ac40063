//! The directory agent: one record per application directory under a
//! configured root, with the application metadata its manifest declares.

use vstd::prelude::*;

use crate::settings::MixConfig;

verus! {

/// One scanned application directory.
pub struct Directory {
    pub path: String,
    pub created: i64,
    pub modified: i64,
    pub app_name: String,
    pub app_version: String,
    pub app_desc: String,
    pub link_man: String,
}

impl Default for Directory {
    fn default() -> (r: Directory)
        ensures
            r.path@ == Seq::<char>::empty(),
            r.created == 0,
            r.modified == 0,
            r.app_name@ == Seq::<char>::empty(),
            r.app_version@ == Seq::<char>::empty(),
            r.app_desc@ == Seq::<char>::empty(),
            r.link_man@ == Seq::<char>::empty(),
    {
        Directory {
            path: String::new(),
            created: 0,
            modified: 0,
            app_name: String::new(),
            app_version: String::new(),
            app_desc: String::new(),
            link_man: String::new(),
        }
    }
}

impl Directory {
    /// An empty record to collect into; the caller sets up logging first.
    pub fn init() -> (r: Directory)
        ensures
            r.path@ == Seq::<char>::empty(),
            r.created == 0,
            r.modified == 0,
            r.app_name@ == Seq::<char>::empty(),
            r.app_version@ == Seq::<char>::empty(),
            r.app_desc@ == Seq::<char>::empty(),
            r.link_man@ == Seq::<char>::empty(),
    {
        Directory::default()
    }
}

/// What one scan reports: the root that was scanned and its entries.
pub struct Summary {
    pub root_path: String,
    pub results: Vec<Directory>,
}

/// The schedule used when none is configured: once a day at midnight.
pub fn default_cron() -> (r: String)
    ensures
        r@ == "0 0 0 * * ?"@,
{
    let r = "0 0 0 * * ?";
    r.to_owned()
}

/// The directory agent's configuration: the root to scan and the
/// schedule.
pub struct AppScanConfig {
    pub root_path: String,
    pub cron: String,
}

impl Default for AppScanConfig {
    fn default() -> (r: AppScanConfig)
        ensures
            r.root_path@ == Seq::<char>::empty(),
            r.cron@ == "0 0 0 * * ?"@,
    {
        AppScanConfig { root_path: String::new(), cron: default_cron() }
    }
}

impl MixConfig for AppScanConfig {
    fn new() -> Self {
        AppScanConfig::default()
    }
}

} // verus!
