//! The artifact of one extension on disk, and the pipeline that gets it
//! there: query, resolve, locate, look for a cached copy, fetch, save.
//!
//! The pipeline does no I/O itself. `download` is its decision function: it
//! takes the state and what happened last, and says what is to be done next.

use crate::error::{Failure, FetchError, QueryError};
use crate::extensions::info::{
    answer, answered, identifier_parts, is_query_for, is_success, parse_extension_name, query,
    ExtensionInfo, ExtensionName, QueryRequest,
};
use crate::extensions::platform::{
    comparable, resolution, resolve, versions_comparable, ResolvedTarget,
};
use crate::extensions::url::{download_url, for_download};
use crate::extensions::version_map::PlatformKey;
use crate::text::{
    holds, holds_at, lemma_contains_in_part, lemma_holds_after, lemma_holds_before_or_after,
    lemma_holds_char, lemma_holds_in_part, optional_str, optional_text, owned, same_text,
};
use crate::views::ok_view;
use vstd::prelude::*;
use vstd::string::*;

verus! {

/// `std::io::Error`, why a stream could not be read to its end. Nothing is
/// claimed of it here.
#[verifier::external_type_specification]
#[verifier::external_body]
pub struct ExIoError(std::io::Error);

/// The part of a file name that names a platform, or nothing where no
/// platform is named.
pub open spec fn platform_suffix(platform: Option<Seq<char>>) -> Seq<char> {
    match platform {
        Some(name) => "@"@ + name,
        None => Seq::empty(),
    }
}

/// The name of the file that holds the package of one version of an
/// extension: `publisher.name-version.vsix`, with `@platform` before the
/// ending where the package is built for a platform.
pub open spec fn file_name(
    publisher: Seq<char>,
    extension_name: Seq<char>,
    version: Seq<char>,
    platform: Option<Seq<char>>,
) -> Seq<char> {
    publisher + "."@ + extension_name + "-"@ + version + platform_suffix(platform) + ".vsix"@
}

/// The name under which the package of `version` of an extension is saved.
pub fn name(
    target_platform: Option<String>,
    publisher: &str,
    extension_name: &str,
    version: &str,
) -> (file: String)
    ensures
        file@ == file_name(publisher@, extension_name@, version@, optional_text(target_platform)),
{
    let mut file = owned(publisher);
    file.append(".");
    file.append(extension_name);
    file.append("-");
    file.append(version);
    match target_platform {
        Some(platform) => {
            file.append("@");
            file.append(platform.as_str());
            file.append(".vsix");
            proof {
                assert(file@ =~= file_name(
                    publisher@,
                    extension_name@,
                    version@,
                    Some(platform@),
                ));
            }
        },
        None => {
            file.append(".vsix");
        },
    }
    file
}

/// The file name says that the package is built for a platform.
pub open spec fn has_platform_suffix(file: Seq<char>) -> bool {
    holds(file, "@"@)
}

/// The address asks for the build for a platform.
pub open spec fn has_platform_parameter(url: Seq<char>) -> bool {
    holds(url, "?targetPlatform="@)
}

/// The publisher, the extension's name or the version holds `mark`.
pub open spec fn part_holds(
    publisher: Seq<char>,
    extension_name: Seq<char>,
    version: Seq<char>,
    mark: Seq<char>,
) -> bool {
    holds(publisher, mark) || holds(extension_name, mark) || holds(version, mark)
}

/// For a package that is built for a platform, the file name says so and
/// the address asks for it.
pub proof fn platform_is_named_in_file_and_address(
    publisher: Seq<char>,
    extension_name: Seq<char>,
    version: Seq<char>,
    platform: Seq<char>,
)
    ensures
        has_platform_suffix(file_name(publisher, extension_name, version, Some(platform))),
        has_platform_parameter(download_url(publisher, extension_name, version, Some(platform))),
{
    let stem = publisher + "."@ + extension_name + "-"@ + version;
    let file = file_name(publisher, extension_name, version, Some(platform));
    assert(file =~= stem + ("@"@ + (platform + ".vsix"@)));
    assert(holds(stem + ("@"@ + (platform + ".vsix"@)), "@"@)) by {
        assert("@"@.subrange(0, "@"@.len() as int) =~= "@"@);
        assert(holds_at("@"@, "@"@, 0));
        lemma_holds_in_part("@"@, platform + ".vsix"@, "@"@);
        lemma_holds_in_part(stem, "@"@ + (platform + ".vsix"@), "@"@);
    }
    let mark = "?targetPlatform="@;
    let base = "https://marketplace.visualstudio.com/_apis/public/gallery/publishers/"@ + publisher
        + "/vsextensions/"@ + extension_name + "/"@ + version + "/vspackage"@;
    let url = download_url(publisher, extension_name, version, Some(platform));
    assert(url =~= base + (mark + platform));
    assert(holds(base + (mark + platform), mark)) by {
        assert(mark.subrange(0, mark.len() as int) =~= mark);
        assert(holds_at(mark, mark, 0));
        lemma_holds_in_part(mark, platform, mark);
        lemma_holds_in_part(base, mark + platform, mark);
    }
}

/// For a package that is built for no platform in particular, the file
/// name looks as if it named one only if the publisher, the extension's
/// name or the version holds the mark of one.
pub proof fn file_without_platform(
    publisher: Seq<char>,
    extension_name: Seq<char>,
    version: Seq<char>,
)
    ensures
        has_platform_suffix(file_name(publisher, extension_name, version, None)) <==> part_holds(
            publisher,
            extension_name,
            version,
            "@"@,
        ),
{
    reveal_strlit("@");
    reveal_strlit(".");
    reveal_strlit("-");
    reveal_strlit(".vsix");
    assert("@"@ =~= seq!['@']);
    let file = file_name(publisher, extension_name, version, None);
    assert(file =~= publisher + ("."@ + (extension_name + ("-"@ + (version + ".vsix"@)))));
    lemma_holds_char(file, '@');
    lemma_holds_char(publisher, '@');
    lemma_holds_char(extension_name, '@');
    lemma_holds_char(version, '@');
    lemma_contains_in_part(publisher, "."@ + (extension_name + ("-"@ + (version + ".vsix"@))), '@');
    lemma_contains_in_part("."@, extension_name + ("-"@ + (version + ".vsix"@)), '@');
    lemma_contains_in_part(extension_name, "-"@ + (version + ".vsix"@), '@');
    lemma_contains_in_part("-"@, version + ".vsix"@, '@');
    lemma_contains_in_part(version, ".vsix"@, '@');
    assert(!"."@.contains('@'));
    assert(!"-"@.contains('@'));
    assert(!".vsix"@.contains('@'));
}

/// For a package that is built for no platform in particular, the address
/// looks as if it asked for one only if the publisher, the extension's name
/// or the version holds the mark of the parameter.
pub proof fn address_without_platform(
    publisher: Seq<char>,
    extension_name: Seq<char>,
    version: Seq<char>,
)
    ensures
        has_platform_parameter(download_url(publisher, extension_name, version, None))
            <==> part_holds(publisher, extension_name, version, "?targetPlatform="@),
{
    let mark = "?targetPlatform="@;
    let root = "https://marketplace.visualstudio.com/_apis/public/gallery/publishers/"@;
    let extensions = "/vsextensions/"@;
    let slash = "/"@;
    let package = "/vspackage"@;
    reveal_strlit("?targetPlatform=");
    reveal_strlit("https://marketplace.visualstudio.com/_apis/public/gallery/publishers/");
    reveal_strlit("/vsextensions/");
    reveal_strlit("/");
    reveal_strlit("/vspackage");
    assert(!mark.contains('/'));
    assert(!root.contains('?'));
    assert(!extensions.contains('?'));
    assert(!slash.contains('?'));
    assert(!package.contains('?'));
    let after_version = version + package;
    let after_slash = slash + after_version;
    let after_name = extension_name + after_slash;
    let after_extensions = extensions + after_name;
    let after_publisher = publisher + after_extensions;
    let url = download_url(publisher, extension_name, version, None);
    assert(url =~= root + after_publisher);
    if holds(url, mark) {
        lemma_holds_after(root, after_publisher, mark);
        lemma_holds_before_or_after(publisher, after_extensions, mark);
        if !holds(publisher, mark) {
            lemma_holds_after(extensions, after_name, mark);
            lemma_holds_before_or_after(extension_name, after_slash, mark);
            if !holds(extension_name, mark) {
                lemma_holds_after(slash, after_version, mark);
                lemma_holds_before_or_after(version, package, mark);
                if !holds(version, mark) {
                    assert(package =~= package + Seq::<char>::empty());
                    lemma_holds_after(package, Seq::<char>::empty(), mark);
                    let at = choose|at: int|
                        holds_at(Seq::<char>::empty(), mark, at);
                    assert(false);
                }
            }
        }
    }
    if part_holds(publisher, extension_name, version, mark) {
        lemma_holds_in_part(version, package, mark);
        lemma_holds_in_part(slash, after_version, mark);
        lemma_holds_in_part(extension_name, after_slash, mark);
        lemma_holds_in_part(extensions, after_name, mark);
        lemma_holds_in_part(publisher, after_extensions, mark);
        lemma_holds_in_part(root, after_publisher, mark);
    }
}

/// The file name and the address agree on the platform: the file name says
/// that the package is built for one exactly when the address asks for one.
///
/// This is stated of every package that is built for a platform. Of one that
/// is not, it is stated where the publisher, the extension's name and the
/// version either hold both marks or neither: a version such as `1@2` puts
/// the mark of a platform into the file name and no parameter into the
/// address.
pub proof fn file_and_address_agree_on_platform(
    publisher: Seq<char>,
    extension_name: Seq<char>,
    version: Seq<char>,
    platform: Option<Seq<char>>,
)
    requires
        platform is None ==> (part_holds(publisher, extension_name, version, "@"@) <==> part_holds(
            publisher,
            extension_name,
            version,
            "?targetPlatform="@,
        )),
    ensures
        has_platform_suffix(file_name(publisher, extension_name, version, platform))
            <==> has_platform_parameter(download_url(publisher, extension_name, version, platform)),
{
    match platform {
        Some(named) => {
            platform_is_named_in_file_and_address(publisher, extension_name, version, named);
        },
        None => {
            file_without_platform(publisher, extension_name, version);
            address_without_platform(publisher, extension_name, version);
        },
    }
}

/// Whether the artifact has to be fetched: always when a refresh is forced,
/// and else only if no file is there yet. Nothing but the file's existence
/// is looked at.
pub fn should_fetch(exists: bool, force: bool) -> (fetch: bool)
    ensures
        fetch == (force || !exists),
{
    force || !exists
}

/// What a gzip stream decompresses to, or `None` where `data` is not one.
pub uninterp spec fn gunzip(data: Seq<u8>) -> Option<Seq<u8>>;

/// Reads `data` to the end through `flate2::read::GzDecoder`: whether it
/// decompresses, and to what, depends on `data` alone.
#[verifier::external_body]
fn decompress(data: &[u8]) -> (plain: Result<Vec<u8>, std::io::Error>)
    ensures
        match plain {
            Ok(bytes) => gunzip(data@) == Some(bytes@),
            Err(_) => gunzip(data@) is None,
        },
{
    let mut plain = Vec::new();
    match std::io::Read::read_to_end(&mut flate2::read::GzDecoder::new(data), &mut plain) {
        Ok(_) => Ok(plain),
        Err(error) => Err(error),
    }
}

/// How long a request may wait for its answer, in seconds.
pub const REQUEST_TIMEOUT: u64 = 60;

/// The response header that says how the body is encoded.
pub const ENCODING_HEADER: &'static str = "transfer-encoding";

/// The encoding that a download asks for, and that is undone before saving.
pub const GZIP: &'static str = "gzip";

/// The header's value announces a gzip-compressed body.
pub open spec fn announces_gzip(encoding: Option<Seq<char>>) -> bool {
    encoding == Some("gzip"@)
}

/// What is to be saved for a response to a download: the body of a
/// successful response, decompressed if it is announced as gzip.
pub open spec fn delivered(status: u16, encoding: Option<Seq<char>>, body: Seq<u8>) -> Result<
    Seq<u8>,
    FetchError,
> {
    if !is_success(status) {
        Err(FetchError::Http(status))
    } else if announces_gzip(encoding) {
        match gunzip(body) {
            Some(plain) => Ok(plain),
            None => Err(FetchError::Decode),
        }
    } else {
        Ok(body)
    }
}

/// The bytes to save for a response to a download.
///
/// The whole body is at hand before anything is decided, so a response that
/// fails leaves nothing to write.
pub fn payload(status: u16, encoding: Option<&str>, body: Vec<u8>) -> (content: Result<
    Vec<u8>,
    FetchError,
>)
    ensures
        ok_view(content) == delivered(status, optional_str(encoding), body@),
{
    if status < 200 || status >= 300 {
        return Err(FetchError::Http(status));
    }
    let gzip = match encoding {
        Some(value) => same_text(value, GZIP),
        None => false,
    };
    if gzip {
        match decompress(body.as_slice()) {
            Ok(plain) => Ok(plain),
            Err(_) => Err(FetchError::Decode),
        }
    } else {
        Ok(body)
    }
}

/// What is asked for one identifier.
#[derive(Debug)]
pub struct Request {
    /// The identifier, `publisher.name`.
    pub extension: String,
    /// The directory in which artifacts are saved.
    pub destination: String,
    /// Fetch even if the artifact is there already.
    pub force: bool,
    /// The platform to take a build for, in place of this machine's.
    pub os_arch: Option<String>,
    /// This machine's platform.
    pub current: String,
}

/// The artifact that was settled on: which build, where it comes from and
/// where it goes.
#[derive(Debug)]
pub struct Artifact {
    pub target: ResolvedTarget,
    pub download_url: String,
    pub file_name: String,
    pub file_path: String,
    /// The platform that was asked for, where the extension is not published
    /// for it and the platform-agnostic release is taken in its place.
    pub unsupported: Option<String>,
}

/// Where the pipeline stands.
#[derive(Debug)]
pub enum State {
    /// Nothing has been done yet.
    Ready,
    /// The metadata query is under way.
    Querying { name: ExtensionName },
    /// The destination is being searched for a cached copy.
    Probing { artifact: Artifact },
    /// The artifact is being fetched.
    Fetching { artifact: Artifact },
    /// The artifact is being written to disk.
    Saving { artifact: Artifact },
    /// The identifier is done with.
    Finished,
}

/// What happened last.
#[derive(Debug)]
pub enum Event {
    /// Processing of the identifier begins.
    Started,
    /// The marketplace answered the metadata query.
    QueryAnswered { status: u16, body: String },
    /// The metadata query got no answer.
    QueryFailed,
    /// The metadata query got no answer within the time allowed.
    QueryTimedOut,
    /// The destination was searched; `exists` says whether the artifact's
    /// file is there.
    Probed { exists: bool },
    /// The marketplace answered the download; `encoding` is the value of the
    /// response header `ENCODING_HEADER`, if it was sent.
    PackageReceived { status: u16, encoding: Option<String>, content: Vec<u8> },
    /// The download got no answer.
    PackageFailed,
    /// The download got no answer within the time allowed.
    PackageTimedOut,
    /// The artifact was written.
    Saved,
    /// The artifact could not be written.
    SaveFailed,
}

/// How processing of an identifier ended.
#[derive(Debug)]
pub enum Outcome {
    /// The artifact was there already, and was not fetched.
    Skipped { file_path: String },
    /// The artifact was fetched and saved.
    Saved { file_path: String },
    /// Nothing was saved.
    Failed(Failure),
}

/// What is to be done next.
#[derive(Debug)]
pub enum Action {
    /// Post the metadata query, and report its answer.
    Query(QueryRequest),
    /// Report whether a file exists at `file_path`.
    Probe { file_path: String },
    /// Get `url`, with the request header `Accept-Encoding` set to
    /// `accept_encoding`, and report the response.
    Fetch { url: String, accept_encoding: String },
    /// Write `content` to `file_path`, and report whether that worked.
    Save { file_path: String, content: Vec<u8> },
    /// Nothing more: the identifier is done with.
    Finish(Outcome),
}

/// The build that the pipeline takes: the one that platform resolution
/// gives, and else the platform-agnostic release, if there is one.
pub open spec fn chosen_target(
    os_arch: Option<Seq<char>>,
    current: Seq<char>,
    versions: Map<PlatformKey, Seq<char>>,
) -> Result<(PlatformKey, Seq<char>), Failure> {
    if !comparable(os_arch, current, versions) {
        Err(Failure::InvalidVersion)
    } else {
        match resolution(current, os_arch, versions) {
            Some(target) => Ok(target),
            None => if versions.contains_key(None) {
                Ok((None, versions[None]))
            } else if os_arch is Some {
                Err(Failure::UnsupportedPlatform)
            } else {
                Err(Failure::NoResolvableTarget)
            },
        }
    }
}

/// The platform that was asked for and is not listed.
pub open spec fn unsupported_platform(
    os_arch: Option<Seq<char>>,
    versions: Map<PlatformKey, Seq<char>>,
) -> Option<Seq<char>> {
    match os_arch {
        Some(platform) => if versions.contains_key(Some(platform)) {
            None
        } else {
            Some(platform)
        },
        None => None,
    }
}

/// The build to take for a request, given what is published.
pub fn choose_target(os_arch: Option<&str>, current: &str, info: &ExtensionInfo) -> (target: Result<
    ResolvedTarget,
    Failure,
>)
    ensures
        ok_view(target) == chosen_target(optional_str(os_arch), current@, info@),
{
    if !versions_comparable(os_arch, current, info) {
        return Err(Failure::InvalidVersion);
    }
    match resolve(current, os_arch, info) {
        Some(found) => Ok(found),
        None => match info.arch_versions.get(&None) {
            Some(version) => Ok(ResolvedTarget { platform: None, version: version.clone() }),
            None => if os_arch.is_some() {
                Err(Failure::UnsupportedPlatform)
            } else {
                Err(Failure::NoResolvableTarget)
            },
        },
    }
}

/// `artifact` is the build `target` of the extension `name` of `publisher`,
/// fetched from the marketplace and saved in `destination`.
pub open spec fn is_artifact_of(
    artifact: Artifact,
    destination: Seq<char>,
    publisher: Seq<char>,
    name: Seq<char>,
    target: (PlatformKey, Seq<char>),
) -> bool {
    &&& artifact.target@ == target
    &&& artifact.download_url@ == download_url(publisher, name, target.1, target.0)
    &&& artifact.file_name@ == file_name(publisher, name, target.1, target.0)
    &&& artifact.file_path@ == destination + "/"@ + artifact.file_name@
}

/// Where the build `target` of an extension comes from and where it goes.
pub fn locate(destination: &str, extension: &ExtensionName, target: ResolvedTarget) -> (artifact:
    Artifact)
    ensures
        is_artifact_of(artifact, destination@, extension.publisher@, extension.name@, target@),
        artifact.unsupported is None,
{
    let platform = match &target.platform {
        Some(platform) => Some(platform.clone()),
        None => None,
    };
    let download_url = for_download(
        extension.publisher.as_str(),
        extension.name.as_str(),
        target.version.as_str(),
        platform,
    );
    let platform = match &target.platform {
        Some(platform) => Some(platform.clone()),
        None => None,
    };
    let file_name = name(
        platform,
        extension.publisher.as_str(),
        extension.name.as_str(),
        target.version.as_str(),
    );
    let mut file_path = owned(destination);
    file_path.append("/");
    file_path.append(file_name.as_str());
    Artifact { target, download_url, file_name, file_path, unsupported: None }
}

/// The pipeline stops with `failure`.
pub open spec fn fails(next: State, action: Action, failure: Failure) -> bool {
    next is Finished && action == Action::Finish(Outcome::Failed(failure))
}

/// The pipeline goes on to fetch `artifact`.
pub open spec fn fetches(next: State, action: Action, artifact: Artifact) -> bool {
    &&& next == (State::Fetching { artifact })
    &&& action matches Action::Fetch { url, accept_encoding }
    &&& url@ == artifact.download_url@
    &&& accept_encoding@ == "gzip"@
}

/// The pipeline goes on to look for a cached copy of `artifact`.
pub open spec fn probes(next: State, action: Action, artifact: Artifact) -> bool {
    &&& next == (State::Probing { artifact })
    &&& action matches Action::Probe { file_path }
    &&& file_path@ == artifact.file_path@
}

/// What follows the answer to the metadata query for the extension `name`
/// of `publisher`.
pub open spec fn follows_answer(
    request: Request,
    publisher: Seq<char>,
    name: Seq<char>,
    status: u16,
    body: Seq<char>,
    next: State,
    action: Action,
) -> bool {
    match answered(status, body) {
        Err(error) => fails(next, action, Failure::Query(error)),
        Ok(versions) => match chosen_target(
            optional_text(request.os_arch),
            request.current@,
            versions,
        ) {
            Err(failure) => fails(next, action, failure),
            Ok(target) => {
                &&& (next matches State::Fetching { artifact } || next matches State::Probing {
                    artifact,
                })
                &&& is_artifact_of(next.artifact(), request.destination@, publisher, name, target)
                &&& optional_text(next.artifact().unsupported) == unsupported_platform(
                    optional_text(request.os_arch),
                    versions,
                )
                &&& if request.force {
                    fetches(next, action, next.artifact())
                } else {
                    probes(next, action, next.artifact())
                }
            },
        },
    }
}

/// What follows the response to the download of `artifact`.
pub open spec fn follows_package(
    artifact: Artifact,
    status: u16,
    encoding: Option<Seq<char>>,
    body: Seq<u8>,
    next: State,
    action: Action,
) -> bool {
    match delivered(status, encoding, body) {
        Ok(bytes) => {
            &&& next == (State::Saving { artifact })
            &&& action matches Action::Save { file_path, content }
            &&& file_path@ == artifact.file_path@
            &&& content@ == bytes
        },
        Err(error) => fails(next, action, Failure::Fetch(error)),
    }
}

/// The pipeline's rule: in `state`, after `event`, it goes to `next` and
/// asks for `action`.
///
/// An identifier is split, queried for, resolved and located; a cached copy
/// is looked for unless a refresh is forced, and ends the processing if it
/// is there; else the artifact is fetched and saved. Whatever fails ends the
/// processing of this identifier, and so does an event that the state was
/// not waiting for. Nothing is tried a second time.
pub open spec fn follows(
    request: Request,
    state: State,
    event: Event,
    next: State,
    action: Action,
) -> bool {
    match (state, event) {
        (State::Ready, Event::Started) => match identifier_parts(request.extension@) {
            Some((publisher, name)) => {
                &&& next matches State::Querying { name: split }
                &&& split.publisher@ == publisher
                &&& split.name@ == name
                &&& action matches Action::Query(sent)
                &&& is_query_for(sent, publisher, name)
            },
            None => fails(next, action, Failure::InvalidIdentifier),
        },
        (State::Querying { name }, Event::QueryAnswered { status, body }) => follows_answer(
            request,
            name.publisher@,
            name.name@,
            status,
            body@,
            next,
            action,
        ),
        (State::Querying { name }, Event::QueryFailed) => fails(
            next,
            action,
            Failure::Query(QueryError::Transport),
        ),
        (State::Querying { name }, Event::QueryTimedOut) => fails(
            next,
            action,
            Failure::Query(QueryError::Timeout),
        ),
        (State::Probing { artifact }, Event::Probed { exists }) => if request.force || !exists {
            fetches(next, action, artifact)
        } else {
            &&& next is Finished
            &&& action matches Action::Finish(Outcome::Skipped { file_path })
            &&& file_path@ == artifact.file_path@
        },
        (
            State::Fetching { artifact },
            Event::PackageReceived { status, encoding, content },
        ) => follows_package(artifact, status, optional_text(encoding), content@, next, action),
        (State::Fetching { artifact }, Event::PackageFailed) => fails(
            next,
            action,
            Failure::Fetch(FetchError::Transport),
        ),
        (State::Fetching { artifact }, Event::PackageTimedOut) => fails(
            next,
            action,
            Failure::Fetch(FetchError::Timeout),
        ),
        (State::Saving { artifact }, Event::Saved) => {
            &&& next is Finished
            &&& action matches Action::Finish(Outcome::Saved { file_path })
            &&& file_path@ == artifact.file_path@
        },
        (State::Saving { artifact }, Event::SaveFailed) => fails(
            next,
            action,
            Failure::Fetch(FetchError::Io),
        ),
        _ => fails(next, action, Failure::UnexpectedEvent),
    }
}

impl State {
    /// The artifact that the state holds.
    pub open spec fn artifact(self) -> Artifact {
        match self {
            State::Probing { artifact } => artifact,
            State::Fetching { artifact } => artifact,
            State::Saving { artifact } => artifact,
            _ => arbitrary(),
        }
    }
}

/// The pipeline stopped with `failure`.
fn stop(failure: Failure) -> (next: (State, Action))
    ensures
        fails(next.0, next.1, failure),
{
    (State::Finished, Action::Finish(Outcome::Failed(failure)))
}

/// The pipeline going on to fetch `artifact`.
fn fetch(artifact: Artifact) -> (next: (State, Action))
    ensures
        fetches(next.0, next.1, artifact),
{
    let url = artifact.download_url.clone();
    (State::Fetching { artifact }, Action::Fetch { url, accept_encoding: owned(GZIP) })
}

/// What the pipeline does once the metadata query is answered.
fn after_answer(request: &Request, extension: ExtensionName, status: u16, body: String) -> (next: (
    State,
    Action,
))
    ensures
        follows_answer(
            *request,
            extension.publisher@,
            extension.name@,
            status,
            body@,
            next.0,
            next.1,
        ),
{
    let info = match answer(status, body.as_str()) {
        Ok(info) => info,
        Err(error) => {
            return stop(Failure::Query(error));
        },
    };
    let os_arch = match &request.os_arch {
        Some(platform) => Some(platform.as_str()),
        None => None,
    };
    let target = match choose_target(os_arch, request.current.as_str(), &info) {
        Ok(target) => target,
        Err(failure) => {
            return stop(failure);
        },
    };
    let mut artifact = locate(request.destination.as_str(), &extension, target);
    artifact.unsupported = match &request.os_arch {
        Some(platform) => if info.arch_versions.contains_key(&request.os_arch) {
            None
        } else {
            Some(platform.clone())
        },
        None => None,
    };
    if request.force {
        fetch(artifact)
    } else {
        let file_path = artifact.file_path.clone();
        (State::Probing { artifact }, Action::Probe { file_path })
    }
}

/// Decides what the download of one extension does next: in `state`, after
/// `event`, it gives the state to go to and the action to take.
pub fn download(request: &Request, state: State, event: Event) -> (next: (State, Action))
    ensures
        follows(*request, state, event, next.0, next.1),
{
    match (state, event) {
        (State::Ready, Event::Started) => match parse_extension_name(request.extension.as_str()) {
            Ok(name) => {
                let sent = query(name.publisher.as_str(), name.name.as_str());
                (State::Querying { name }, Action::Query(sent))
            },
            Err(_) => stop(Failure::InvalidIdentifier),
        },
        (State::Querying { name }, Event::QueryAnswered { status, body }) => after_answer(
            request,
            name,
            status,
            body,
        ),
        (State::Querying { name: _ }, Event::QueryFailed) => stop(
            Failure::Query(QueryError::Transport),
        ),
        (State::Querying { name: _ }, Event::QueryTimedOut) => stop(
            Failure::Query(QueryError::Timeout),
        ),
        (State::Probing { artifact }, Event::Probed { exists }) => if should_fetch(
            exists,
            request.force,
        ) {
            fetch(artifact)
        } else {
            let file_path = artifact.file_path;
            (State::Finished, Action::Finish(Outcome::Skipped { file_path }))
        },
        (State::Fetching { artifact }, Event::PackageReceived { status, encoding, content }) => {
            let announced = match &encoding {
                Some(value) => Some(value.as_str()),
                None => None,
            };
            match payload(status, announced, content) {
                Ok(content) => {
                    let file_path = artifact.file_path.clone();
                    (State::Saving { artifact }, Action::Save { file_path, content })
                },
                Err(error) => stop(Failure::Fetch(error)),
            }
        },
        (State::Fetching { artifact: _ }, Event::PackageFailed) => stop(
            Failure::Fetch(FetchError::Transport),
        ),
        (State::Fetching { artifact: _ }, Event::PackageTimedOut) => stop(
            Failure::Fetch(FetchError::Timeout),
        ),
        (State::Saving { artifact }, Event::Saved) => {
            let file_path = artifact.file_path;
            (State::Finished, Action::Finish(Outcome::Saved { file_path }))
        },
        (State::Saving { artifact: _ }, Event::SaveFailed) => stop(
            Failure::Fetch(FetchError::Io),
        ),
        _ => stop(Failure::UnexpectedEvent),
    }
}

/// The pipeline asks for a fetch only if a refresh is forced or the
/// destination was searched and holds no copy.
pub proof fn fetch_only_if_forced_or_missing(
    request: Request,
    state: State,
    event: Event,
    next: State,
    action: Action,
)
    requires
        follows(request, state, event, next, action),
        action is Fetch,
    ensures
        request.force || (state is Probing && event == (Event::Probed { exists: false })),
{
}

/// The pipeline asks for nothing to be written but what a successful
/// response to the download delivered.
pub proof fn save_only_what_was_delivered(
    request: Request,
    state: State,
    event: Event,
    next: State,
    action: Action,
)
    requires
        follows(request, state, event, next, action),
        action is Save,
    ensures
        state is Fetching,
        event matches Event::PackageReceived { status, encoding, content } && is_success(status)
            && delivered(status, optional_text(encoding), content@) == Ok::<_, FetchError>(
            action->content@,
        ),
{
}

/// Whatever fails ends the processing of the identifier: once the pipeline
/// reports an outcome, it is finished.
pub proof fn outcome_ends_the_pipeline(
    request: Request,
    state: State,
    event: Event,
    next: State,
    action: Action,
)
    requires
        follows(request, state, event, next, action),
    ensures
        action is Finish <==> next is Finished,
{
}

} // verus!
