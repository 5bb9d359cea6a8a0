//! macOS: the kernel's release and the product version.

use crate::os_info::info::OsInfo;
use crate::os_info::info::OsInfoView;
use crate::os_info::info::OsType;
use vstd::prelude::*;

verus! {

/// What is known of a macOS system, from the kernel's release, the machine's architecture
/// and the product version, where the system told one: the version is the product version,
/// and the kernel's release where there is none.
pub fn macos_info(release: String, machine: String, product_version: Option<String>) -> (info:
    OsInfo)
    ensures
        info@ == (OsInfoView {
            os_type: OsType::MacOS,
            version: match product_version {
                Some(version) => version@,
                None => release@,
            },
            release: Some(release@),
            edition: None,
            architecture: machine@,
        }),
{
    let version = match product_version {
        Some(version) => version,
        None => release.clone(),
    };
    OsInfo {
        os_type: OsType::MacOS,
        version,
        release: Some(release),
        edition: None,
        architecture: machine,
    }
}

} // verus!
