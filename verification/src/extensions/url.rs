//! Marketplace addresses: the query endpoint and the location of an artifact.

use crate::text::{optional_text, owned};
use vstd::prelude::*;
use vstd::string::*;

verus! {

/// Root of the marketplace's gallery API.
pub const BASE_URL: &'static str = "https://marketplace.visualstudio.com/_apis/public/gallery/";

/// The query parameter that names a platform, or nothing where no platform
/// is named.
pub open spec fn platform_parameter(platform: Option<Seq<char>>) -> Seq<char> {
    match platform {
        Some(name) => "?targetPlatform="@ + name,
        None => Seq::empty(),
    }
}

/// Where the package of one version of an extension is downloaded from.
pub open spec fn download_url(
    publisher: Seq<char>,
    extension_name: Seq<char>,
    version: Seq<char>,
    platform: Option<Seq<char>>,
) -> Seq<char> {
    "https://marketplace.visualstudio.com/_apis/public/gallery/publishers/"@ + publisher
        + "/vsextensions/"@ + extension_name + "/"@ + version + "/vspackage"@ + platform_parameter(
        platform,
    )
}

/// The address from which the package of `version` of an extension is
/// downloaded; it asks for the build for `target_platform` where one is
/// given.
pub fn for_download(
    publisher: &str,
    extension_name: &str,
    version: &str,
    target_platform: Option<String>,
) -> (url: String)
    ensures
        url@ == download_url(
            publisher@,
            extension_name@,
            version@,
            optional_text(target_platform),
        ),
{
    let mut url = owned("https://marketplace.visualstudio.com/_apis/public/gallery/publishers/");
    url.append(publisher);
    url.append("/vsextensions/");
    url.append(extension_name);
    url.append("/");
    url.append(version);
    url.append("/vspackage");
    if let Some(platform) = target_platform {
        url.append("?targetPlatform=");
        url.append(platform.as_str());
        proof {
            assert(url@ =~= download_url(publisher@, extension_name@, version@, Some(platform@)));
        }
    }
    url
}

/// The address of the extension query endpoint.
pub open spec fn query_endpoint() -> Seq<char> {
    BASE_URL@ + "/extensionquery"@
}

/// The address to which metadata queries are posted.
pub fn query_url() -> (url: String)
    ensures
        url@ == query_endpoint(),
{
    let mut url = owned(BASE_URL);
    url.append("/extensionquery");
    url
}

} // verus!
