//! Windows: version numbers and the edition they stand for.

use crate::os_info::info::OsInfo;
use crate::os_info::info::OsInfoView;
use crate::os_info::info::OsType;
use crate::text::ascii_chars;
use crate::text::decimal_text;
use crate::text::lemma_decimal_text_shape;
use crate::text::push_ascii;
use crate::text::push_decimal;
use vstd::prelude::*;

verus! {

/// The build with which Windows 11 begins.
pub const FIRST_WINDOWS_11_BUILD: u32 = 22000;

/// The name of the Windows release with the given version numbers.
pub open spec fn release_name(major: u32, minor: u32, build: u32) -> Seq<char> {
    if major == 10 && minor == 0 && build >= FIRST_WINDOWS_11_BUILD {
        "Windows 11"@
    } else if major == 10 && minor == 0 {
        "Windows 10"@
    } else if major == 6 && minor == 3 {
        "Windows 8.1"@
    } else if major == 6 && minor == 2 {
        "Windows 8"@
    } else if major == 6 && minor == 1 {
        "Windows 7"@
    } else if major == 6 && minor == 0 {
        "Windows Vista"@
    } else if major == 5 && minor == 2 {
        "Windows Server 2003"@
    } else if major == 5 && minor == 1 {
        "Windows XP"@
    } else {
        "Windows"@
    }
}

/// The edition: the release's name, followed by ` Server` on anything but a workstation.
pub open spec fn edition(major: u32, minor: u32, build: u32, workstation: bool) -> Seq<char> {
    release_name(major, minor, build) + (if workstation {
        ""@
    } else {
        " Server"@
    })
}

/// A number in decimal.
pub open spec fn number(n: u32) -> Seq<char> {
    ascii_chars(decimal_text(n as nat))
}

/// The version: major, minor and build number, with dots between them.
pub open spec fn version(major: u32, minor: u32, build: u32) -> Seq<char> {
    number(major) + "."@ + number(minor) + "."@ + number(build)
}

/// Appends a number in decimal.
fn push_number(text: &mut String, n: u32)
    ensures
        final(text)@ == old(text)@ + number(n),
{
    let mut digits: Vec<u8> = Vec::new();
    push_decimal(&mut digits, n as u128);
    proof {
        lemma_decimal_text_shape(n as nat);
        assert(digits@ =~= decimal_text(n as nat));
    }
    push_ascii(text, digits.as_slice());
}

/// The edition of Windows that version numbers and the kind of product stand for.
pub fn get_windows_edition(major: u32, minor: u32, build: u32, workstation: bool) -> (name: String)
    ensures
        name@ == edition(major, minor, build, workstation),
{
    let base_name = if major == 10 && minor == 0 && build >= FIRST_WINDOWS_11_BUILD {
        "Windows 11"
    } else if major == 10 && minor == 0 {
        "Windows 10"
    } else if major == 6 && minor == 3 {
        "Windows 8.1"
    } else if major == 6 && minor == 2 {
        "Windows 8"
    } else if major == 6 && minor == 1 {
        "Windows 7"
    } else if major == 6 && minor == 0 {
        "Windows Vista"
    } else if major == 5 && minor == 2 {
        "Windows Server 2003"
    } else if major == 5 && minor == 1 {
        "Windows XP"
    } else {
        "Windows"
    };
    let product_type = if workstation {
        ""
    } else {
        " Server"
    };
    base_name.to_string().concat(product_type)
}

/// What is known of a Windows system, from its version numbers, the kind of product and
/// the machine's architecture.
pub fn windows_info(major: u32, minor: u32, build: u32, workstation: bool, architecture: String) -> (info:
    OsInfo)
    ensures
        info@ == (OsInfoView {
            os_type: OsType::Windows,
            version: version(major, minor, build),
            release: Some("Build "@ + number(build)),
            edition: Some(edition(major, minor, build, workstation)),
            architecture: architecture@,
        }),
{
    let mut version_text = String::new();
    push_number(&mut version_text, major);
    version_text.append(".");
    push_number(&mut version_text, minor);
    version_text.append(".");
    push_number(&mut version_text, build);
    assert(version_text@ =~= version(major, minor, build));
    let mut release = "Build ".to_string();
    push_number(&mut release, build);
    OsInfo {
        os_type: OsType::Windows,
        version: version_text,
        release: Some(release),
        edition: Some(get_windows_edition(major, minor, build, workstation)),
        architecture,
    }
}

/// What is told of a Windows system whose version could not be asked for.
pub fn get_os_info_fallback(architecture: String) -> (info: OsInfo)
    ensures
        info@ == (OsInfoView {
            os_type: OsType::Windows,
            version: "Unknown"@,
            release: None,
            edition: Some("Windows"@),
            architecture: architecture@,
        }),
{
    OsInfo {
        os_type: OsType::Windows,
        version: "Unknown".to_string(),
        release: None,
        edition: Some("Windows".to_string()),
        architecture,
    }
}

} // verus!
