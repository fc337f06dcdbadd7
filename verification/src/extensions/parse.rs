//! Reading the marketplace's answer to a metadata query.

use crate::error::QueryError;
use crate::extensions::extension::names_view;
use crate::extensions::info::ExtensionInfo;
use crate::extensions::version_map::{PlatformKey, VersionMap};
use crate::json::{as_array, as_str, field, get, items, json_of, json_of_each, text, Json};
use crate::text::{optional_text, owned};
use vstd::prelude::*;

verus! {

/// One entry of the list of versions that the marketplace publishes for an
/// extension, newest first.
#[derive(Debug)]
pub struct PublishedVersion {
    pub version: String,
    /// The platform that this build targets; `None` for a platform-agnostic
    /// release.
    pub target_platform: Option<String>,
}

impl View for PublishedVersion {
    type V = (PlatformKey, Seq<char>);

    open spec fn view(&self) -> (PlatformKey, Seq<char>) {
        (optional_text(self.target_platform), self.version@)
    }
}

/// The views of a list of published versions, in order.
pub open spec fn published_view(published: Seq<PublishedVersion>) -> Seq<(PlatformKey, Seq<char>)> {
    published.map_values(|entry: PublishedVersion| entry@)
}

/// The first item of a JSON array.
pub open spec fn first_item(value: Json) -> Option<Json> {
    match items(value) {
        Some(list) => if list.len() > 0 {
            Some(list[0])
        } else {
            None
        },
        None => None,
    }
}

/// The first item of the array that is the member `list` of `value`.
pub open spec fn first_of(value: Json, list: Seq<char>) -> Option<Json> {
    match field(value, list) {
        Some(inner) => first_item(inner),
        None => None,
    }
}

/// The list of versions in an answer: the array at
/// `results[0].extensions[0].versions`, if the answer has one.
pub open spec fn listed_versions(response: Json) -> Option<Seq<Json>> {
    match first_of(response, "results"@) {
        Some(result) => match first_of(result, "extensions"@) {
            Some(extension) => match field(extension, "versions"@) {
                Some(versions) => items(versions),
                None => None,
            },
            None => None,
        },
        None => None,
    }
}

/// What one item of the list publishes: its `version`, if that is a string,
/// for its `targetPlatform`, if that is a string, and else for no platform in
/// particular. An item without a version string publishes nothing.
pub open spec fn published_by(item: Json) -> Option<(PlatformKey, Seq<char>)> {
    match field(item, "version"@) {
        Some(Json::Text(version)) => Some(
            (
                match field(item, "targetPlatform"@) {
                    Some(Json::Text(platform)) => Some(platform),
                    _ => None,
                },
                version,
            ),
        ),
        _ => None,
    }
}

/// What the items of a list publish, in order.
pub open spec fn published_by_each(list: Seq<Json>) -> Seq<(PlatformKey, Seq<char>)>
    decreases list.len(),
{
    if list.len() == 0 {
        Seq::empty()
    } else {
        match published_by(list.last()) {
            Some(entry) => published_by_each(list.drop_last()).push(entry),
            None => published_by_each(list.drop_last()),
        }
    }
}

/// The version map of a list of published versions: for each platform key,
/// the version of the first entry that names it.
pub open spec fn first_per_platform(published: Seq<(PlatformKey, Seq<char>)>) -> Map<
    PlatformKey,
    Seq<char>,
>
    decreases published.len(),
{
    if published.len() == 0 {
        Map::empty()
    } else {
        let earlier = first_per_platform(published.drop_last());
        let (platform, version) = published.last();
        if earlier.contains_key(platform) {
            earlier
        } else {
            earlier.insert(platform, version)
        }
    }
}

/// What an answer says is published for an extension, or `None` where it
/// holds no list of versions.
pub open spec fn parsed(response: Json) -> Option<Map<PlatformKey, Seq<char>>> {
    match listed_versions(response) {
        Some(list) => Some(first_per_platform(published_by_each(list))),
        None => None,
    }
}

/// The first item of the array that is the member `list` of `value`.
fn first_in<'a>(value: &'a serde_json::Value, list: &str) -> (first: Option<&'a serde_json::Value>)
    ensures
        match first {
            Some(inner) => first_of(json_of(*value), list@) == Some(json_of(*inner)),
            None => first_of(json_of(*value), list@) is None,
        },
{
    match get(value, list) {
        Some(inner) => match as_array(inner) {
            Some(array) => if array.len() > 0 {
                Some(&array[0])
            } else {
                None
            },
            None => None,
        },
        None => None,
    }
}

/// The list of versions in an answer, as the document holds it.
fn versions_in(response_json: &serde_json::Value) -> (array: Option<&Vec<serde_json::Value>>)
    ensures
        match array {
            Some(list) => listed_versions(json_of(*response_json)) == Some(json_of_each(list@)),
            None => listed_versions(json_of(*response_json)) is None,
        },
{
    let result = match first_in(response_json, "results") {
        Some(result) => result,
        None => {
            return None;
        },
    };
    let extension = match first_in(result, "extensions") {
        Some(extension) => extension,
        None => {
            return None;
        },
    };
    match get(extension, "versions") {
        Some(versions) => as_array(versions),
        None => None,
    }
}

/// What one item of the list of versions publishes.
fn published_version(item: &serde_json::Value) -> (entry: Option<PublishedVersion>)
    ensures
        match entry {
            Some(found) => published_by(json_of(*item)) == Some(found@),
            None => published_by(json_of(*item)) is None,
        },
{
    let version = match get(item, "version") {
        Some(inner) => match as_str(inner) {
            Some(version) => owned(version),
            None => {
                return None;
            },
        },
        None => {
            return None;
        },
    };
    let target_platform = match get(item, "targetPlatform") {
        Some(inner) => match as_str(inner) {
            Some(platform) => Some(owned(platform)),
            None => None,
        },
        None => None,
    };
    Some(PublishedVersion { version, target_platform })
}

/// The versions that an answer lists, newest first as the marketplace gives
/// them, or `None` where the answer holds no list.
pub fn published_versions(response_json: &serde_json::Value) -> (published: Option<
    Vec<PublishedVersion>,
>)
    ensures
        match published {
            Some(list) => listed_versions(json_of(*response_json)) is Some && published_view(list@)
                == published_by_each(listed_versions(json_of(*response_json))->0),
            None => listed_versions(json_of(*response_json)) is None,
        },
{
    let array = match versions_in(response_json) {
        Some(array) => array,
        None => {
            return None;
        },
    };
    let ghost list = json_of_each(array@);
    let mut published: Vec<PublishedVersion> = Vec::new();
    let mut i: usize = 0;
    while i < array.len()
        invariant
            i <= array@.len(),
            list == json_of_each(array@),
            published_view(published@) == published_by_each(list.take(i as int)),
        decreases array@.len() - i,
    {
        proof {
            assert(list.take(i + 1).drop_last() =~= list.take(i as int));
        }
        match published_version(&array[i]) {
            Some(entry) => {
                published.push(entry);
            },
            None => {},
        }
        i += 1;
    }
    proof {
        assert(list.take(i as int) =~= list);
    }
    Some(published)
}

/// The latest version for each platform among `published`, which lists
/// newer versions first: the first entry for a platform key is kept.
pub fn latest_per_platform(published: &Vec<PublishedVersion>) -> (info: ExtensionInfo)
    ensures
        info@ == first_per_platform(published_view(published@)),
{
    let mut arch_versions = VersionMap::new();
    let ghost entries = published_view(published@);
    let mut i: usize = 0;
    while i < published.len()
        invariant
            i <= published@.len(),
            entries == published_view(published@),
            arch_versions@ == first_per_platform(entries.take(i as int)),
        decreases published@.len() - i,
    {
        proof {
            assert(entries.take(i + 1).drop_last() =~= entries.take(i as int));
        }
        let arch = match &published[i].target_platform {
            Some(platform) => Some(platform.clone()),
            None => None,
        };
        if !arch_versions.contains_key(&arch) {
            arch_versions.insert(arch, published[i].version.clone());
        }
        i += 1;
    }
    proof {
        assert(entries.take(i as int) =~= entries);
    }
    ExtensionInfo { arch_versions }
}

/// Reads the version map out of the marketplace's answer to a query.
pub fn parse(response_json: &serde_json::Value) -> (info: Result<ExtensionInfo, QueryError>)
    ensures
        match info {
            Ok(found) => parsed(json_of(*response_json)) == Some(found@),
            Err(error) => error == QueryError::Malformed && parsed(json_of(*response_json))
                is None,
        },
{
    match published_versions(response_json) {
        Some(published) => Ok(latest_per_platform(&published)),
        None => Err(QueryError::Malformed),
    }
}

/// The version that an answer lists first, which is the newest: the
/// `version` of the first item of the list, if the list has an item and that
/// is a string.
pub open spec fn newest(response: Json) -> Option<Seq<char>> {
    match listed_versions(response) {
        Some(list) => if list.len() > 0 {
            match field(list[0], "version"@) {
                Some(version) => text(version),
                None => None,
            }
        } else {
            None
        },
        None => None,
    }
}

/// The platforms that the items of a list name, in order: of each item its
/// `targetPlatform`, if that is a string.
pub open spec fn platforms_of(list: Seq<Json>) -> Seq<Seq<char>>
    decreases list.len(),
{
    if list.len() == 0 {
        Seq::empty()
    } else {
        match field(list.last(), "targetPlatform"@) {
            Some(Json::Text(platform)) => platforms_of(list.drop_last()).push(platform),
            _ => platforms_of(list.drop_last()),
        }
    }
}

/// The newest version that an answer lists, whatever platform it is for.
pub fn latest_version(response_json: &serde_json::Value) -> (version: Option<String>)
    ensures
        optional_text(version) == newest(json_of(*response_json)),
{
    let array = match versions_in(response_json) {
        Some(array) => array,
        None => {
            return None;
        },
    };
    if array.len() == 0 {
        return None;
    }
    match get(&array[0], "version") {
        Some(inner) => match as_str(inner) {
            Some(version) => Some(owned(version)),
            None => None,
        },
        None => None,
    }
}

/// The platforms that an answer lists builds for, one for each item of the
/// list that names one, or `None` where the answer holds no list.
pub fn architectures(response_json: &serde_json::Value) -> (platforms: Option<Vec<String>>)
    ensures
        match platforms {
            Some(names) => listed_versions(json_of(*response_json)) is Some
                && names_view(names@) == platforms_of(
                listed_versions(json_of(*response_json))->0,
            ),
            None => listed_versions(json_of(*response_json)) is None,
        },
{
    let array = match versions_in(response_json) {
        Some(array) => array,
        None => {
            return None;
        },
    };
    let ghost list = json_of_each(array@);
    let mut names: Vec<String> = Vec::new();
    let mut i: usize = 0;
    while i < array.len()
        invariant
            i <= array@.len(),
            list == json_of_each(array@),
            names_view(names@) == platforms_of(list.take(i as int)),
        decreases array@.len() - i,
    {
        proof {
            assert(list.take(i + 1).drop_last() =~= list.take(i as int));
        }
        match get(&array[i], "targetPlatform") {
            Some(inner) => match as_str(inner) {
                Some(platform) => {
                    names.push(owned(platform));
                },
                None => {},
            },
            None => {},
        }
        i += 1;
    }
    proof {
        assert(list.take(i as int) =~= list);
    }
    Some(names)
}

/// A platform key is in the version map exactly when some entry names it.
pub proof fn platform_listed_iff_published(
    published: Seq<(PlatformKey, Seq<char>)>,
    platform: PlatformKey,
)
    ensures
        first_per_platform(published).contains_key(platform) <==> exists|i: int|
            0 <= i < published.len() && (#[trigger] published[i]).0 == platform,
    decreases published.len(),
{
    if published.len() > 0 {
        let earlier = published.drop_last();
        platform_listed_iff_published(earlier, platform);
        if first_per_platform(published).contains_key(platform) {
            if earlier.len() > 0 && first_per_platform(earlier).contains_key(platform) {
                let i = choose|i: int|
                    0 <= i < earlier.len() && (#[trigger] earlier[i]).0 == platform;
                assert(published[i].0 == platform);
            } else {
                assert(published[published.len() - 1].0 == platform);
            }
        }
        if exists|i: int| 0 <= i < published.len() && (#[trigger] published[i]).0 == platform {
            let i = choose|i: int|
                0 <= i < published.len() && (#[trigger] published[i]).0 == platform;
            if i < earlier.len() {
                assert(earlier[i].0 == platform);
            }
        }
    }
}

/// The first entry for a platform key wins: the map holds its version,
/// whatever later entries say.
pub proof fn first_entry_wins(published: Seq<(PlatformKey, Seq<char>)>, first: int)
    requires
        0 <= first < published.len(),
        forall|i: int| 0 <= i < first ==> (#[trigger] published[i]).0 != published[first].0,
    ensures
        first_per_platform(published).contains_key(published[first].0),
        first_per_platform(published)[published[first].0] == published[first].1,
    decreases published.len(),
{
    let earlier = published.drop_last();
    if first < published.len() - 1 {
        assert(earlier[first] == published[first]);
        assert forall|i: int| 0 <= i < first implies (#[trigger] earlier[i]).0
            != earlier[first].0 by {
            assert(earlier[i] == published[i]);
        }
        first_entry_wins(earlier, first);
    } else {
        platform_listed_iff_published(earlier, published[first].0);
        if first_per_platform(earlier).contains_key(published[first].0) {
            let i = choose|i: int|
                0 <= i < earlier.len() && (#[trigger] earlier[i]).0 == published[first].0;
            assert(earlier[i] == published[i]);
        }
    }
}

} // verus!
