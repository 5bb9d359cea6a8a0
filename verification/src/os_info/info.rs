use crate::text::optional_text;
use crate::text::same_text;
use vstd::prelude::*;

verus! {

/// Operating system type
#[derive(Debug, Clone, Copy, PartialEq, Eq, Hash, Structural)]
pub enum OsType {
    Windows,
    MacOS,
    Linux,
    FreeBSD,
    OpenBSD,
    NetBSD,
    Android,
    IOS,
    Unknown,
}

impl OsType {
    /// The name under which the system is known.
    pub open spec fn name(self) -> Seq<char> {
        match self {
            OsType::Windows => "Windows"@,
            OsType::MacOS => "macOS"@,
            OsType::Linux => "Linux"@,
            OsType::FreeBSD => "FreeBSD"@,
            OsType::OpenBSD => "OpenBSD"@,
            OsType::NetBSD => "NetBSD"@,
            OsType::Android => "Android"@,
            OsType::IOS => "iOS"@,
            OsType::Unknown => "Unknown"@,
        }
    }

    /// The name under which the system is known.
    pub fn as_str(&self) -> (name: &'static str)
        ensures
            name@ == self.name(),
    {
        match self {
            OsType::Windows => "Windows",
            OsType::MacOS => "macOS",
            OsType::Linux => "Linux",
            OsType::FreeBSD => "FreeBSD",
            OsType::OpenBSD => "OpenBSD",
            OsType::NetBSD => "NetBSD",
            OsType::Android => "Android",
            OsType::IOS => "iOS",
            OsType::Unknown => "Unknown",
        }
    }

    /// The name under which the system is known, as a string of its own.
    pub fn to_string(&self) -> (name: String)
        ensures
            name@ == self.name(),
    {
        self.as_str().to_string()
    }
}

/// Operating system information
#[derive(Debug, Clone, PartialEq, Eq)]
pub struct OsInfo {
    /// OS type
    pub os_type: OsType,
    /// OS version string
    pub version: String,
    /// OS release/build number (if available)
    pub release: Option<String>,
    /// OS edition (e.g., "Home", "Pro" for Windows)
    pub edition: Option<String>,
    /// Architecture (e.g., "x86_64", "aarch64")
    pub architecture: String,
}

/// What an [`OsInfo`] holds, as mathematical values.
pub struct OsInfoView {
    pub os_type: OsType,
    pub version: Seq<char>,
    pub release: Option<Seq<char>>,
    pub edition: Option<Seq<char>>,
    pub architecture: Seq<char>,
}

impl View for OsInfo {
    type V = OsInfoView;

    open spec fn view(&self) -> OsInfoView {
        OsInfoView {
            os_type: self.os_type,
            version: self.version@,
            release: optional_text(self.release),
            edition: optional_text(self.edition),
            architecture: self.architecture@,
        }
    }
}

impl OsInfoView {
    /// Whether the version is worth telling: it is neither empty nor the word `unknown`.
    pub open spec fn version_known(self) -> bool {
        self.version.len() > 0 && self.version != "unknown"@
    }

    /// The description of the system: its name, its version where that is known, its
    /// edition and, in brackets, its release where there are any, and its architecture, with
    /// a space between each two of them.
    pub open spec fn description(self) -> Seq<char> {
        self.os_type.name() + (if self.version_known() {
            " "@ + self.version
        } else {
            Seq::empty()
        }) + (match self.edition {
            Some(edition) => " "@ + edition,
            None => Seq::empty(),
        }) + (match self.release {
            Some(release) => " ("@ + release + ")"@,
            None => Seq::empty(),
        }) + " "@ + self.architecture
    }
}

impl OsInfo {
    /// What is known of a system of which only the kind, a version and the architecture can
    /// be told.
    pub fn of_kind(os_type: OsType, version: String, architecture: String) -> (info: OsInfo)
        ensures
            info@ == (OsInfoView {
                os_type,
                version: version@,
                release: None,
                edition: None,
                architecture: architecture@,
            }),
    {
        OsInfo { os_type, version, release: None, edition: None, architecture }
    }

    /// Get a human-readable description of the OS
    pub fn description(&self) -> (text: String)
        ensures
            text@ == self@.description(),
    {
        let mut text = self.os_type.to_string();
        if !self.version.as_str().is_empty() && !same_text(self.version.as_str(), "unknown") {
            text.append(" ");
            text.append(self.version.as_str());
        }
        let ghost with_version = text@;
        if let Some(edition) = &self.edition {
            text.append(" ");
            text.append(edition.as_str());
        }
        let ghost with_edition = text@;
        if let Some(release) = &self.release {
            text.append(" (");
            text.append(release.as_str());
            text.append(")");
        }
        let ghost with_release = text@;
        text.append(" ");
        text.append(self.architecture.as_str());
        proof {
            let view = self@;
            assert(with_version =~= view.os_type.name() + (if view.version_known() {
                " "@ + view.version
            } else {
                Seq::empty()
            }));
            assert(with_edition =~= with_version + (match view.edition {
                Some(edition) => " "@ + edition,
                None => Seq::empty(),
            }));
            assert(with_release =~= with_edition + (match view.release {
                Some(release) => " ("@ + release + ")"@,
                None => Seq::empty(),
            }));
            assert(text@ =~= with_release + " "@ + view.architecture);
        }
        text
    }

    /// The description of the system, as [`OsInfo::description`] gives it.
    pub fn to_string(&self) -> (text: String)
        ensures
            text@ == self@.description(),
    {
        self.description()
    }
}

} // verus!
