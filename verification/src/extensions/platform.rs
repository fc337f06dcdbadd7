//! Which platform build of an extension to take.

use crate::extensions::info::ExtensionInfo;
use crate::extensions::version_map::{PlatformKey, VersionMap};
use crate::extensions::version::{compare, is_version, try_parse, version_number};
use crate::text::{optional_str, optional_text, owned, same_text};
use crate::views::some_view;
use core::cmp::Ordering;
use vstd::prelude::*;
use vstd::string::*;

verus! {

/// The marketplace's name for a machine architecture.
pub open spec fn marketplace_arch(arch: Seq<char>) -> Seq<char> {
    if arch == "x86_64"@ {
        "x64"@
    } else if arch == "arm"@ {
        "arm64"@
    } else {
        arch
    }
}

/// The marketplace's name for an operating system.
pub open spec fn marketplace_os(os: Seq<char>) -> Seq<char> {
    if os == "macos"@ {
        "darwin"@
    } else if os == "windows"@ {
        "win32"@
    } else {
        os
    }
}

/// The platform string of a machine, from the names that the compiler gives
/// its operating system and its architecture.
pub open spec fn current_platform(os: Seq<char>, arch: Seq<char>) -> Seq<char> {
    marketplace_os(os) + "-"@ + marketplace_arch(arch)
}

/// The platform string under which the marketplace lists builds for a
/// machine with operating system `os` and architecture `arch`.
pub fn get_current(os: &str, arch: &str) -> (platform: String)
    ensures
        platform@ == current_platform(os@, arch@),
{
    let modified_arch = if same_text(arch, "x86_64") {
        "x64"
    } else if same_text(arch, "arm") {
        "arm64"
    } else {
        arch
    };
    let modified_os = if same_text(os, "macos") {
        "darwin"
    } else if same_text(os, "windows") {
        "win32"
    } else {
        os
    };
    let mut platform = owned(modified_os);
    platform.append("-");
    platform.append(modified_arch);
    platform
}

/// Resolution has to compare two versions: no platform was asked for, and
/// both the machine's platform and the platform-agnostic release are listed.
pub open spec fn compares_versions(
    specified: Option<Seq<char>>,
    current: Seq<char>,
    versions: Map<PlatformKey, Seq<char>>,
) -> bool {
    specified is None && versions.contains_key(Some(current)) && versions.contains_key(None)
}

/// Where resolution compares two versions, both are well formed.
pub open spec fn comparable(
    specified: Option<Seq<char>>,
    current: Seq<char>,
    versions: Map<PlatformKey, Seq<char>>,
) -> bool {
    compares_versions(specified, current, versions) ==> is_version(versions[Some(current)])
        && is_version(versions[None])
}

/// The platform build to take.
///
/// A platform that was asked for is taken if it is listed, and nothing is
/// taken if it is not. Otherwise the machine's own platform is taken if it is
/// listed, unless a platform-agnostic release of the same or a later version
/// is listed too.
pub open spec fn target_platform(
    specified: Option<Seq<char>>,
    current: Seq<char>,
    versions: Map<PlatformKey, Seq<char>>,
) -> Option<Seq<char>> {
    match specified {
        Some(platform) => if versions.contains_key(Some(platform)) {
            Some(platform)
        } else {
            None
        },
        None => if !versions.contains_key(Some(current)) {
            None
        } else if !versions.contains_key(None) {
            Some(current)
        } else if compare(version_number(versions[Some(current)]), version_number(versions[None]))
            == Ordering::Greater {
            Some(current)
        } else {
            None
        },
    }
}

/// Whether `decide_target` and `resolve` may be called on these inputs.
pub fn versions_comparable(specified: Option<&str>, current: &str, info: &ExtensionInfo) -> (ok:
    bool)
    ensures
        ok == comparable(optional_str(specified), current@, info@),
{
    if specified.is_some() {
        return true;
    }
    let key = Some(owned(current));
    match (info.arch_versions.get(&key), info.arch_versions.get(&None)) {
        (Some(specific), Some(agnostic)) => try_parse(specific.as_str()).is_some() && try_parse(
            agnostic.as_str(),
        ).is_some(),
        _ => true,
    }
}

fn decide(specified: Option<&str>, current: &str, versions: &VersionMap) -> (target: Option<String>)
    requires
        comparable(optional_str(specified), current@, versions@),
    ensures
        optional_text(target) == target_platform(optional_str(specified), current@, versions@),
{
    match specified {
        Some(platform) => {
            let key = Some(owned(platform));
            if versions.contains_key(&key) {
                key
            } else {
                None
            }
        },
        None => {
            let key = Some(owned(current));
            match versions.get(&key) {
                None => None,
                Some(specific) => match versions.get(&None) {
                    None => key,
                    Some(agnostic) => {
                        let current_version = crate::extensions::version::parse(specific.as_str());
                        let none_version = crate::extensions::version::parse(agnostic.as_str());
                        if current_version > none_version {
                            key
                        } else {
                            None
                        }
                    },
                },
            }
        },
    }
}

/// Decides which platform build of an extension to take: `specified` if one
/// was asked for, else the build for `current`.
pub fn decide_target(specified: Option<&str>, current: String, info: ExtensionInfo) -> (target:
    Option<String>)
    requires
        comparable(optional_str(specified), current@, info@),
    ensures
        optional_text(target) == target_platform(
            optional_str(specified),
            current@,
            info@,
        ),
{
    decide(specified, current.as_str(), &info.arch_versions)
}

/// The build chosen for one extension: a platform, or `None` for the
/// platform-agnostic release, and the version published for it.
#[derive(Debug)]
pub struct ResolvedTarget {
    pub platform: Option<String>,
    pub version: String,
}

impl View for ResolvedTarget {
    type V = (PlatformKey, Seq<char>);

    open spec fn view(&self) -> (PlatformKey, Seq<char>) {
        (optional_text(self.platform), self.version@)
    }
}

/// The platform build to take, with the version that is listed for it.
pub open spec fn resolution(
    current: Seq<char>,
    platform_override: Option<Seq<char>>,
    versions: Map<PlatformKey, Seq<char>>,
) -> Option<(PlatformKey, Seq<char>)> {
    match target_platform(platform_override, current, versions) {
        Some(platform) => Some((Some(platform), versions[Some(platform)])),
        None => None,
    }
}

/// Resolves the platform build to take, and its version: the build for
/// `platform_override` if one is given, else the build for
/// `current_platform`.
pub fn resolve(
    current_platform: &str,
    platform_override: Option<&str>,
    versions: &ExtensionInfo,
) -> (target: Option<ResolvedTarget>)
    requires
        comparable(optional_str(platform_override), current_platform@, versions@),
    ensures
        some_view(target) == resolution(
            current_platform@,
            optional_str(platform_override),
            versions@,
        ),
{
    let platform = decide(platform_override, current_platform, &versions.arch_versions);
    if platform.is_none() {
        return None;
    }
    match versions.arch_versions.get(&platform) {
        Some(version) => Some(ResolvedTarget { version: version.clone(), platform }),
        None => None,
    }
}

/// Resolution is a function of its inputs: whatever two calls on the same
/// platform, override and version map return, they return the same.
pub proof fn resolve_is_deterministic(
    current: Seq<char>,
    platform_override: Option<Seq<char>>,
    versions: Map<PlatformKey, Seq<char>>,
    first: Option<(PlatformKey, Seq<char>)>,
    second: Option<(PlatformKey, Seq<char>)>,
)
    requires
        first == resolution(current, platform_override, versions),
        second == resolution(current, platform_override, versions),
    ensures
        first == second,
{
}

/// No build is resolved from an empty version map.
pub proof fn resolve_fails_on_empty_map(current: Seq<char>, platform_override: Option<Seq<char>>)
    ensures
        resolution(current, platform_override, Map::empty()) is None,
{
}

} // verus!
