use irongate::os_info::error::Error;
use irongate::os_info::info::OsInfo;
use irongate::os_info::info::OsType;
use irongate::os_info::linux::linux_info;
use irongate::os_info::linux::parse_os_release;
use irongate::os_info::macos::macos_info;
use irongate::os_info::windows::get_os_info_fallback;
use irongate::os_info::windows::get_windows_edition;
use irongate::os_info::windows::windows_info;

#[test]
fn test_os_type_display() {
    assert_eq!(OsType::Windows.to_string(), "Windows");
    assert_eq!(OsType::MacOS.to_string(), "macOS");
    assert_eq!(OsType::Linux.to_string(), "Linux");
}

#[test]
fn test_os_info_description() {
    let info = OsInfo {
        os_type: OsType::Linux,
        version: "22.04".to_string(),
        release: Some("5.15.0".to_string()),
        edition: Some("Ubuntu".to_string()),
        architecture: "x86_64".to_string(),
    };

    let desc = info.description();
    assert!(desc.contains("Linux"));
    assert!(desc.contains("22.04"));
    assert!(desc.contains("Ubuntu"));
    assert!(desc.contains("x86_64"));
}

#[test]
fn description_is_exact() {
    let info = OsInfo {
        os_type: OsType::Linux,
        version: "22.04".to_string(),
        release: Some("5.15.0".to_string()),
        edition: Some("Ubuntu".to_string()),
        architecture: "x86_64".to_string(),
    };
    assert_eq!(info.description(), "Linux 22.04 Ubuntu (5.15.0) x86_64");
    assert_eq!(info.to_string(), "Linux 22.04 Ubuntu (5.15.0) x86_64");
}

#[test]
fn description_leaves_out_what_is_not_known() {
    let unknown = OsInfo::of_kind(OsType::Unknown, "unknown".to_string(), "riscv64".to_string());
    assert_eq!(unknown.description(), "Unknown riscv64");
    let empty = OsInfo::of_kind(OsType::FreeBSD, String::new(), "x86_64".to_string());
    assert_eq!(empty.description(), "FreeBSD x86_64");
    let named = OsInfo::of_kind(OsType::IOS, "ios".to_string(), "aarch64".to_string());
    assert_eq!(named.description(), "iOS ios aarch64");
    // only the exact word is passed over
    let other = OsInfo::of_kind(OsType::Android, "Unknown".to_string(), "arm".to_string());
    assert_eq!(other.description(), "Android Unknown arm");
}

#[test]
fn all_os_type_names() {
    let names: Vec<String> = [
        OsType::Windows,
        OsType::MacOS,
        OsType::Linux,
        OsType::FreeBSD,
        OsType::OpenBSD,
        OsType::NetBSD,
        OsType::Android,
        OsType::IOS,
        OsType::Unknown,
    ]
    .iter()
    .map(|t| t.to_string())
    .collect();
    assert_eq!(
        names,
        vec!["Windows", "macOS", "Linux", "FreeBSD", "OpenBSD", "NetBSD", "Android", "iOS", "Unknown"]
    );
}

#[test]
fn os_release_of_a_distribution() {
    let content = "PRETTY_NAME=\"Ubuntu 22.04.3 LTS\"\nNAME=\"Ubuntu\"\nVERSION_ID=\"22.04\"\nVERSION=\"22.04.3 LTS (Jammy Jellyfish)\"\nID=ubuntu\n";
    let (name, version) = parse_os_release(content);
    assert_eq!(name.as_deref(), Some("Ubuntu"));
    assert_eq!(version.as_deref(), Some("22.04.3 LTS (Jammy Jellyfish)"));
}

#[test]
fn os_release_version_id_only_fills_a_gap() {
    assert_eq!(parse_os_release("VERSION_ID=12\n"), (None, Some("12".to_string())));
    assert_eq!(parse_os_release("VERSION=1\nVERSION_ID=2"), (None, Some("1".to_string())));
    assert_eq!(parse_os_release("VERSION_ID=2\nVERSION=1"), (None, Some("1".to_string())));
    assert_eq!(parse_os_release("VERSION_ID=2\nVERSION_ID=3"), (None, Some("2".to_string())));
    assert_eq!(parse_os_release("NAME=a\nNAME=b"), (Some("b".to_string()), None));
}

#[test]
fn os_release_line_endings_and_quotes() {
    assert_eq!(parse_os_release(""), (None, None));
    assert_eq!(parse_os_release("\n\n"), (None, None));
    assert_eq!(parse_os_release("NAME=\"Arch Linux\"\r\n"), (Some("Arch Linux".to_string()), None));
    // a carriage return without a line feed belongs to the line
    assert_eq!(parse_os_release("NAME=Arch\r"), (Some("Arch\r".to_string()), None));
    assert_eq!(parse_os_release("NAME=\"\"\"q\"\""), (Some("q".to_string()), None));
    assert_eq!(parse_os_release("NAME=\"\""), (Some(String::new()), None));
    assert_eq!(parse_os_release("NAME=a\"b"), (Some("a\"b".to_string()), None));
    assert_eq!(parse_os_release(" NAME=x\nname=y\nNAME"), (None, None));
    assert_eq!(parse_os_release("NAME=éa\nVERSION=ü"), (Some("éa".to_string()), Some("ü".to_string())));
}

#[test]
fn linux_version_falls_back_to_the_kernel_release() {
    let info = linux_info("6.1.0".to_string(), "x86_64".to_string(), (None, None));
    assert_eq!(info.os_type, OsType::Linux);
    assert_eq!(info.version, "6.1.0");
    assert_eq!(info.release.as_deref(), Some("6.1.0"));
    assert_eq!(info.edition, None);
    assert_eq!(info.architecture, "x86_64");
    let info = linux_info(
        "6.1.0".to_string(),
        "aarch64".to_string(),
        (Some("Debian".to_string()), Some("12".to_string())),
    );
    assert_eq!(info.version, "12");
    assert_eq!(info.edition.as_deref(), Some("Debian"));
    assert_eq!(info.description(), "Linux 12 Debian (6.1.0) aarch64");
}

#[test]
fn macos_version_falls_back_to_the_kernel_release() {
    let info = macos_info("23.1.0".to_string(), "arm64".to_string(), Some("14.1".to_string()));
    assert_eq!(info.description(), "macOS 14.1 (23.1.0) arm64");
    let info = macos_info("23.1.0".to_string(), "arm64".to_string(), None);
    assert_eq!(info.description(), "macOS 23.1.0 (23.1.0) arm64");
}

#[test]
fn windows_editions() {
    assert_eq!(get_windows_edition(10, 0, 22000, true), "Windows 11");
    assert_eq!(get_windows_edition(10, 0, 21999, true), "Windows 10");
    assert_eq!(get_windows_edition(10, 0, 19045, false), "Windows 10 Server");
    assert_eq!(get_windows_edition(6, 3, 9600, true), "Windows 8.1");
    assert_eq!(get_windows_edition(6, 2, 9200, true), "Windows 8");
    assert_eq!(get_windows_edition(6, 1, 7601, true), "Windows 7");
    assert_eq!(get_windows_edition(6, 0, 6002, true), "Windows Vista");
    assert_eq!(get_windows_edition(5, 2, 3790, false), "Windows Server 2003 Server");
    assert_eq!(get_windows_edition(5, 1, 2600, true), "Windows XP");
    assert_eq!(get_windows_edition(4, 0, 1381, true), "Windows");
    assert_eq!(get_windows_edition(10, 1, 30000, false), "Windows Server");
}

#[test]
fn windows_information() {
    let info = windows_info(10, 0, 22631, true, "x86_64".to_string());
    assert_eq!(info.os_type, OsType::Windows);
    assert_eq!(info.version, "10.0.22631");
    assert_eq!(info.release.as_deref(), Some("Build 22631"));
    assert_eq!(info.edition.as_deref(), Some("Windows 11"));
    assert_eq!(info.description(), "Windows 10.0.22631 Windows 11 (Build 22631) x86_64");
    let zero = windows_info(0, 0, 0, false, "x86".to_string());
    assert_eq!(zero.version, "0.0.0");
    let big = windows_info(4294967295, 1, 100, false, "x86".to_string());
    assert_eq!(big.version, "4294967295.1.100");
    let fallback = get_os_info_fallback("x86_64".to_string());
    assert_eq!(fallback.description(), "Windows Unknown Windows x86_64");
}

#[test]
fn os_info_error_messages() {
    assert_eq!(Error::SystemCall("uname failed".to_string()).to_string(), "System call failed: uname failed");
    assert_eq!(Error::ParseError("x".to_string()).to_string(), "Failed to parse OS information: x");
    assert_eq!(Error::Io("denied".to_string()).to_string(), "IO error: denied");
}
