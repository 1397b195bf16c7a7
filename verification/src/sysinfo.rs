//! System information: the descriptor of the host that the bridge
//! reports — OS family, CPU architecture, and the best-effort home and
//! application-data directories.

use vstd::prelude::*;

verus! {

/// The host's description, queried fresh on each request and never
/// cached.  The two directory fields are best-effort: absent where the
/// platform cannot determine them.
#[derive(Debug)]
pub struct SystemInfo {
    pub os: String,
    pub arch: String,
    pub home_dir: Option<String>,
    pub app_data_dir: Option<String>,
}

/// Relies on dirs::data_dir: the platform's application-data directory as
/// text, if one is known; the answer depends on the environment.
#[verifier::external_body]
fn data_dir_string() -> (r: Option<String>) {
    match dirs::data_dir() {
        Some(p) => Some(p.to_string_lossy().to_string()),
        None => None,
    }
}

/// Assembles the host descriptor from the OS family and CPU architecture
/// names, querying the best-effort directories fresh.  The two names are
/// carried through unchanged; this query never fails.
pub fn get_system_info(os: String, arch: String) -> (r: SystemInfo)
    ensures
        r.os == os,
        r.arch == arch,
{
    SystemInfo {
        os,
        arch,
        home_dir: crate::fsops::home_dir_string(),
        app_data_dir: data_dir_string(),
    }
}

} // verus!
