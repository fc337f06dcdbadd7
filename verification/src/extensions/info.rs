//! What the marketplace publishes for one extension, and how an extension is
//! named.

use crate::error::{InvalidIdentifier, QueryError};
use crate::extensions::parse::{parse, parsed};
use crate::extensions::url::{query_endpoint, query_url};
use crate::extensions::version_map::{PlatformKey, VersionMap};
use crate::json::{document, from_str};
use crate::text::{chars_of, find_char, owned};
use crate::views::ok_view;
use vstd::prelude::*;
use vstd::string::*;

verus! {

/// What the marketplace publishes for one extension.
#[derive(Debug)]
pub struct ExtensionInfo {
    /// The latest version for each target platform; the key `None` stands
    /// for the platform-agnostic release.
    pub arch_versions: VersionMap,
}

impl View for ExtensionInfo {
    type V = Map<PlatformKey, Seq<char>>;

    open spec fn view(&self) -> Map<PlatformKey, Seq<char>> {
        self.arch_versions@
    }
}

impl Clone for ExtensionInfo {
    fn clone(&self) -> (copy: Self)
        ensures
            copy@ == self@,
    {
        ExtensionInfo { arch_versions: self.arch_versions.clone() }
    }
}

impl PartialEq for ExtensionInfo {
    fn eq(&self, other: &Self) -> (same: bool) {
        self.arch_versions == other.arch_versions
    }
}

impl vstd::std_specs::cmp::PartialEqSpecImpl for ExtensionInfo {
    open spec fn obeys_eq_spec() -> bool {
        true
    }

    open spec fn eq_spec(&self, other: &Self) -> bool {
        self@ == other@
    }
}

impl Default for ExtensionInfo {
    fn default() -> (info: Self)
        ensures
            info@ == Map::<PlatformKey, Seq<char>>::empty(),
    {
        ExtensionInfo { arch_versions: VersionMap::new() }
    }
}

/// An extension identifier, split into its two segments.
#[derive(Debug)]
pub struct ExtensionName {
    pub name: String,
    pub publisher: String,
}

/// No character of `text` is the separator.
pub open spec fn dot_free(text: Seq<char>) -> bool {
    forall|i: int| 0 <= i < text.len() ==> text[i] != '.'
}

/// `raw` has its one separator at `dot`, with a non-empty segment on either
/// side.
pub open spec fn splits_at(raw: Seq<char>, dot: int) -> bool {
    &&& 0 < dot < raw.len() - 1
    &&& raw[dot] == '.'
    &&& dot_free(raw.take(dot))
    &&& dot_free(raw.skip(dot + 1))
}

/// `raw` is a publisher and a name, both non-empty, joined by one separator.
pub open spec fn is_identifier(raw: Seq<char>) -> bool {
    exists|dot: int| splits_at(raw, dot)
}

/// The publisher and the name that `raw` holds.
pub open spec fn identifier_parts(raw: Seq<char>) -> Option<(Seq<char>, Seq<char>)> {
    if is_identifier(raw) {
        let dot = choose|dot: int| splits_at(raw, dot);
        Some((raw.take(dot), raw.skip(dot + 1)))
    } else {
        None
    }
}

/// How often the separator occurs in `text`.
pub open spec fn separators(text: Seq<char>) -> nat
    decreases text.len(),
{
    if text.len() == 0 {
        0
    } else {
        separators(text.drop_last()) + if text.last() == '.' {
            1nat
        } else {
            0nat
        }
    }
}

/// A string splits at one place at most.
pub proof fn split_is_unique(raw: Seq<char>, first: int, second: int)
    requires
        splits_at(raw, first),
        splits_at(raw, second),
    ensures
        first == second,
{
    if first < second {
        assert(raw.take(second)[first] == '.');
    } else if second < first {
        assert(raw.take(first)[second] == '.');
    }
}

proof fn lemma_separators_none(text: Seq<char>)
    ensures
        separators(text) == 0 <==> dot_free(text),
    decreases text.len(),
{
    if text.len() > 0 {
        let front = text.drop_last();
        lemma_separators_none(front);
        if dot_free(text) {
            assert forall|i: int| 0 <= i < front.len() implies front[i] != '.' by {
                assert(front[i] == text[i]);
            }
        }
        if separators(text) == 0 {
            assert forall|i: int| 0 <= i < text.len() implies text[i] != '.' by {
                if i < front.len() {
                    assert(front[i] == text[i]);
                }
            }
        }
    }
}

proof fn lemma_separators_concat(left: Seq<char>, right: Seq<char>)
    ensures
        separators(left + right) == separators(left) + separators(right),
    decreases right.len(),
{
    if right.len() == 0 {
        assert(left + right =~= left);
    } else {
        assert((left + right).drop_last() =~= left + right.drop_last());
        lemma_separators_concat(left, right.drop_last());
    }
}

/// An identifier is a string in which the separator occurs exactly once,
/// and neither first nor last.
pub proof fn identifier_has_one_inner_separator(raw: Seq<char>)
    ensures
        is_identifier(raw) <==> (separators(raw) == 1 && raw.len() > 0 && raw.first() != '.'
            && raw.last() != '.'),
{
    if is_identifier(raw) {
        let dot = choose|dot: int| splits_at(raw, dot);
        assert(raw =~= raw.take(dot) + seq!['.'] + raw.skip(dot + 1));
        lemma_separators_concat(raw.take(dot) + seq!['.'], raw.skip(dot + 1));
        lemma_separators_concat(raw.take(dot), seq!['.']);
        lemma_separators_none(raw.take(dot));
        lemma_separators_none(raw.skip(dot + 1));
        assert(seq!['.'].drop_last() =~= Seq::<char>::empty());
        assert(separators(seq!['.']) == 1) by {
            reveal_with_fuel(separators, 2);
        }
        assert(raw.take(dot)[0] != '.');
        assert(raw.skip(dot + 1)[raw.len() - dot - 2] != '.');
    }
    if separators(raw) == 1 && raw.len() > 0 && raw.first() != '.' && raw.last() != '.' {
        lemma_separators_none(raw);
        let dot = choose|i: int| 0 <= i < raw.len() && raw[i] == '.';
        assert(raw =~= raw.take(dot) + seq!['.'] + raw.skip(dot + 1));
        lemma_separators_concat(raw.take(dot) + seq!['.'], raw.skip(dot + 1));
        lemma_separators_concat(raw.take(dot), seq!['.']);
        assert(seq!['.'].drop_last() =~= Seq::<char>::empty());
        assert(separators(seq!['.']) == 1) by {
            reveal_with_fuel(separators, 2);
        }
        lemma_separators_none(raw.take(dot));
        lemma_separators_none(raw.skip(dot + 1));
        assert(splits_at(raw, dot));
    }
}

/// A non-empty publisher and a non-empty name, neither holding the
/// separator, joined by it, form the identifier that splits back into the
/// two.
pub proof fn identifier_parts_of_join(publisher: Seq<char>, name: Seq<char>)
    requires
        publisher.len() > 0,
        name.len() > 0,
        dot_free(publisher),
        dot_free(name),
    ensures
        identifier_parts(publisher + seq!['.'] + name) == Some((publisher, name)),
{
    let raw = publisher + seq!['.'] + name;
    let dot = publisher.len() as int;
    assert(raw.take(dot) =~= publisher);
    assert(raw.skip(dot + 1) =~= name);
    assert(splits_at(raw, dot));
    let chosen = choose|at: int| splits_at(raw, at);
    split_is_unique(raw, dot, chosen);
}

/// Where the one separator of an identifier is.
fn find_split(chars: &Vec<char>) -> (found: Option<usize>)
    ensures
        match found {
            Some(dot) => splits_at(chars@, dot as int),
            None => !is_identifier(chars@),
        },
{
    let end = chars.len();
    let first = match find_char(chars, 0, '.') {
        Some(first) => first,
        None => {
            return None;
        },
    };
    let second = find_char(chars, first + 1, '.');
    proof {
        assert forall|dot: int| splits_at(chars@, dot) implies dot == first && second is None by {
            if dot > first {
                assert(chars@.take(dot)[first as int] == '.');
            }
            if let Some(other) = second {
                assert(chars@.skip(dot + 1)[other - dot - 1] == '.');
            }
        }
    }
    if second.is_none() && 0 < first && first + 1 < end {
        Some(first)
    } else {
        None
    }
}

/// Whether `name` is a publisher and an extension name, both non-empty,
/// joined by exactly one `.`.
pub fn validate_extension_name(name: &str) -> (valid: bool)
    ensures
        valid == is_identifier(name@),
{
    let chars = chars_of(name);
    find_split(&chars).is_some()
}

/// Splits an identifier into publisher and extension name.
pub fn parse_extension_name(name: &str) -> (parsed: Result<ExtensionName, InvalidIdentifier>)
    ensures
        match parsed {
            Ok(id) => identifier_parts(name@) == Some((id.publisher@, id.name@)),
            Err(_) => identifier_parts(name@) is None,
        },
{
    let chars = chars_of(name);
    match find_split(&chars) {
        Some(dot) => {
            let end = chars.len();
            let publisher = name.substring_char(0, dot);
            let extension = name.substring_char(dot + 1, end);
            proof {
                let chosen = choose|at: int| splits_at(name@, at);
                split_is_unique(name@, dot as int, chosen);
            }
            Ok(ExtensionName { name: owned(extension), publisher: owned(publisher) })
        },
        None => Err(InvalidIdentifier),
    }
}

/// The filter type that selects an extension by its full name.
pub const FILTER_BY_NAME: u32 = 7;

/// The flags that ask for versions with their target platforms.
pub const QUERY_FLAGS: u32 = 914;

/// The metadata query for one extension: where it is posted, with which
/// headers, and what its payload selects.
///
/// The payload is the JSON document
/// `{"filters":[{"criteria":[{"filterType":F,"value":V}]}],"flags":G}`, with
/// `filter_type`, `filter_value` and `flags` for F, V and G.
#[derive(Debug)]
pub struct QueryRequest {
    pub url: String,
    pub headers: Vec<(String, String)>,
    pub filter_type: u32,
    pub filter_value: String,
    pub flags: u32,
}

/// Names and values of a list of headers, in order.
pub open spec fn headers_view(headers: Seq<(String, String)>) -> Seq<(Seq<char>, Seq<char>)> {
    headers.map_values(|header: (String, String)| (header.0@, header.1@))
}

/// The headers that every metadata query carries.
pub open spec fn query_headers() -> Seq<(Seq<char>, Seq<char>)> {
    seq![
        ("Content-Type"@, "application/json"@),
        ("Accept"@, "application/json;api-version=3.0-preview.1"@),
        ("User-Agent"@, "Offline VSIX/1.0"@),
    ]
}

/// `request` is the metadata query for the extension `name` of `publisher`.
pub open spec fn is_query_for(
    request: QueryRequest,
    publisher: Seq<char>,
    name: Seq<char>,
) -> bool {
    &&& request.url@ == query_endpoint()
    &&& headers_view(request.headers@) == query_headers()
    &&& request.filter_type == FILTER_BY_NAME
    &&& request.filter_value@ == publisher + "."@ + name
    &&& request.flags == QUERY_FLAGS
}

/// The metadata query for the extension `extension_name` of `publisher`.
pub fn query(publisher: &str, extension_name: &str) -> (request: QueryRequest)
    ensures
        is_query_for(request, publisher@, extension_name@),
{
    let mut headers: Vec<(String, String)> = Vec::new();
    headers.push((owned("Content-Type"), owned("application/json")));
    headers.push((owned("Accept"), owned("application/json;api-version=3.0-preview.1")));
    headers.push((owned("User-Agent"), owned("Offline VSIX/1.0")));
    let mut filter_value = owned(publisher);
    filter_value.append(".");
    filter_value.append(extension_name);
    proof {
        assert(headers_view(headers@) =~= query_headers());
    }
    QueryRequest {
        url: query_url(),
        headers,
        filter_type: FILTER_BY_NAME,
        filter_value,
        flags: QUERY_FLAGS,
    }
}

/// The status is one of success, 200 to 299.
pub open spec fn is_success(status: u16) -> bool {
    200 <= status < 300
}

/// What an answer of the marketplace to a metadata query gives: the version
/// map that its body holds, if its status is one of success.
pub open spec fn answered(status: u16, body: Seq<char>) -> Result<
    Map<PlatformKey, Seq<char>>,
    QueryError,
> {
    if !is_success(status) {
        Err(QueryError::Http(status))
    } else {
        match document(body) {
            Some(response) => match parsed(response) {
                Some(versions) => Ok(versions),
                None => Err(QueryError::Malformed),
            },
            None => Err(QueryError::Malformed),
        }
    }
}

/// Reads the marketplace's answer to a metadata query.
pub fn answer(status: u16, body: &str) -> (info: Result<ExtensionInfo, QueryError>)
    ensures
        ok_view(info) == answered(status, body@),
{
    if status < 200 || status >= 300 {
        return Err(QueryError::Http(status));
    }
    match from_str(body) {
        Ok(response) => parse(&response),
        Err(_) => Err(QueryError::Malformed),
    }
}

} // verus!
