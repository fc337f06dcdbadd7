//! Resolution by architecture alone, for an extension that is listed with
//! the architectures it supports rather than with a version per platform.

use crate::extensions::url::{download_url, for_download};
use crate::text::{optional_str, optional_text, owned, same_text};
use vstd::prelude::*;

verus! {

/// The characters of each of `names`, in order.
pub open spec fn names_view(names: Seq<String>) -> Seq<Seq<char>> {
    names.map_values(|name: String| name@)
}

/// The architecture to take a build for: the one asked for, or else the
/// machine's own, if the extension supports it.
pub open spec fn supported_target(
    os_arch: Option<Seq<char>>,
    current: Seq<char>,
    supported: Seq<Seq<char>>,
) -> Option<Seq<char>> {
    let wanted = match os_arch {
        Some(arch) => arch,
        None => current,
    };
    if supported.contains(wanted) {
        Some(wanted)
    } else {
        None
    }
}

/// Whether `wanted` is one of `names`.
fn lists(names: &Vec<String>, wanted: &str) -> (found: bool)
    ensures
        found == names_view(names@).contains(wanted@),
{
    let mut i: usize = 0;
    while i < names.len()
        invariant
            i <= names@.len(),
            forall|j: int| 0 <= j < i ==> names_view(names@)[j] != wanted@,
        decreases names@.len() - i,
    {
        if same_text(names[i].as_str(), wanted) {
            assert(names_view(names@)[i as int] == wanted@);
            return true;
        }
        i += 1;
    }
    false
}

/// The architecture to take a build for, among those that an extension
/// supports: `os_arch` if it is given, else `current`, the machine's own.
/// An architecture that is not supported gives `None`, and so does an
/// extension that supports none.
pub fn get_target_platform(
    os_arch: Option<&str>,
    current: &str,
    architectures: &Vec<String>,
) -> (target: Option<String>)
    ensures
        optional_text(target) == supported_target(
            optional_str(os_arch),
            current@,
            names_view(architectures@),
        ),
{
    let wanted = match os_arch {
        Some(arch) => arch,
        None => current,
    };
    if lists(architectures, wanted) {
        Some(owned(wanted))
    } else {
        None
    }
}

/// The address from which the package of `version` of an extension is
/// downloaded, for `target_platform` where one is given.
pub fn get_download_url(
    publisher: &str,
    extension_name: &str,
    version: &str,
    target_platform: Option<&str>,
) -> (url: String)
    ensures
        url@ == download_url(publisher@, extension_name@, version@, optional_str(target_platform)),
{
    let platform = match target_platform {
        Some(platform) => Some(owned(platform)),
        None => None,
    };
    for_download(publisher, extension_name, version, platform)
}

} // verus!
