//! Finding the container engine and asking whether it answers.
//!
//! The shell looks at the disk and runs the engine; what to look for, and
//! what each finding means, is decided here.

use vstd::prelude::*;
use crate::images::{image_listed, lists_image};
use crate::text::{trim, trimmed};

verus! {

/// Where the shell is to look for the engine.
#[derive(Debug, Clone, PartialEq, Eq)]
pub enum EngineRequest {
    /// Under the name `docker`, on the search path.
    OnSearchPath,
    /// At this path.
    At(String),
}

/// What an `EngineRequest` holds.
pub enum EngineRequestView {
    OnSearchPath,
    At(Seq<char>),
}

impl View for EngineRequest {
    type V = EngineRequestView;

    open spec fn view(&self) -> EngineRequestView {
        match self {
            EngineRequest::OnSearchPath => EngineRequestView::OnSearchPath,
            EngineRequest::At(path) => EngineRequestView::At(path@),
        }
    }
}

/// Where to look for the engine, given the path that the user set, if any:
/// at that path without the white space around it, or, where nothing is
/// left of it, on the search path.
pub open spec fn requested_engine(docker_path: Option<Seq<char>>) -> EngineRequestView {
    match docker_path {
        Some(path) => if trimmed(path).len() == 0 {
            EngineRequestView::OnSearchPath
        } else {
            EngineRequestView::At(trimmed(path))
        },
        None => EngineRequestView::OnSearchPath,
    }
}

/// The path that a setting holds: none where the setting is empty.
pub open spec fn path_setting(docker_path: Seq<char>) -> Option<Seq<char>> {
    if docker_path.len() == 0 {
        None
    } else {
        Some(docker_path)
    }
}

/// Decides where the shell is to look for the engine, from the setting
/// that holds the user's path.
pub fn engine_request(docker_path: &str) -> (request: EngineRequest)
    ensures
        request@ == requested_engine(path_setting(docker_path@)),
{
    if docker_path.is_empty() {
        return EngineRequest::OnSearchPath;
    }
    let path = trim(docker_path);
    if path.is_empty() {
        EngineRequest::OnSearchPath
    } else {
        EngineRequest::At(path.to_owned())
    }
}

/// The engine found on the search path, or why there is none. The reason
/// names the search path, or says that it cannot be read.
pub open spec fn search_outcome(found: Option<Seq<char>>, search_path: Option<Seq<char>>) -> Result<
    Seq<char>,
    Seq<char>,
> {
    match found {
        Some(engine) => Ok(engine),
        None => match search_path {
            Some(path) => Err("Docker is not installed or not found in PATH: "@ + path),
            None => Err("Docker is not installed or not found, and PATH cannot be read"@),
        },
    }
}

/// The engine at a path that the user set, or why there is none.
pub open spec fn path_outcome(path: Seq<char>, present: bool) -> Result<Seq<char>, Seq<char>> {
    if present {
        Ok(path)
    } else {
        Err("Docker executable not found at: "@ + path)
    }
}

/// What a result of two strings holds is what is owed.
pub open spec fn says(got: Result<String, String>, owed: Result<Seq<char>, Seq<char>>) -> bool {
    match got {
        Ok(value) => owed == Ok::<Seq<char>, Seq<char>>(value@),
        Err(error) => owed == Err::<Seq<char>, Seq<char>>(error@),
    }
}

/// Decides what a look along the search path means: `found` is the
/// executable it came upon, `search_path` the path it went along, or
/// `None` where the environment has no search path that can be read. An
/// engine that is not found is an error to report, whether or not the
/// search path can be read.
pub fn engine_on_search_path(found: Option<String>, search_path: Option<&str>) -> (engine: Result<
    String,
    String,
>)
    ensures
        says(engine, search_outcome(crate::text::opt_text(found), crate::text::opt_str(search_path))),
{
    match found {
        Some(engine) => Ok(engine),
        None => match search_path {
            Some(path) => {
                let mut why = String::from_str("Docker is not installed or not found in PATH: ");
                why.append(path);
                Err(why)
            },
            None => Err(
                String::from_str("Docker is not installed or not found, and PATH cannot be read"),
            ),
        },
    }
}

/// Decides what a look at the user's path means: `present` says whether
/// anything is there.
pub fn engine_at(path: String, present: bool) -> (engine: Result<String, String>)
    ensures
        says(engine, path_outcome(path@, present)),
{
    if present {
        Ok(path)
    } else {
        let mut why = String::from_str("Docker executable not found at: ");
        why.append(path.as_str());
        Err(why)
    }
}

/// What came of asking the engine for its `info`.
#[derive(Debug, Clone, PartialEq, Eq)]
pub enum DaemonProbe {
    /// The engine could not be run: the system's message.
    NotRun(String),
    /// The engine ran and ended, with success or without.
    Answered { success: bool },
}

/// What a `DaemonProbe` holds.
pub enum DaemonProbeView {
    NotRun(Seq<char>),
    Answered { success: bool },
}

impl View for DaemonProbe {
    type V = DaemonProbeView;

    open spec fn view(&self) -> DaemonProbeView {
        match self {
            DaemonProbe::NotRun(message) => DaemonProbeView::NotRun(message@),
            DaemonProbe::Answered { success } => DaemonProbeView::Answered { success: *success },
        }
    }
}

/// Whether the engine is there to be used: it is if its daemon answered
/// with success.
pub open spec fn availability(engine: Seq<char>, probe: DaemonProbeView) -> Result<
    Seq<char>,
    Seq<char>,
> {
    match probe {
        DaemonProbeView::NotRun(message) => Err("Failed to check Docker status: "@ + message),
        DaemonProbeView::Answered { success } => if success {
            Ok(engine)
        } else {
            Err("Docker daemon is not running"@)
        },
    }
}

/// The arguments with which the engine is asked whether its daemon
/// answers.
pub fn info_arguments() -> (arguments: Vec<String>)
    ensures
        arguments@.len() == 1,
        arguments@[0]@ == "info"@,
{
    vec![String::from_str("info")]
}

/// Decides whether the engine that was found can be used, from what came
/// of asking it for its `info`: the engine, or why it cannot be used.
pub fn check_docker_available(engine: String, probe: &DaemonProbe) -> (checked: Result<
    String,
    String,
>)
    ensures
        says(checked, availability(engine@, probe@)),
{
    match probe {
        DaemonProbe::NotRun(message) => {
            let mut why = String::from_str("Failed to check Docker status: ");
            why.append(message.as_str());
            Err(why)
        },
        DaemonProbe::Answered { success } => {
            if *success {
                Ok(engine)
            } else {
                Err(String::from_str("Docker daemon is not running"))
            }
        },
    }
}

/// What came of asking the engine for its list of images.
#[derive(Debug, Clone, PartialEq, Eq)]
pub enum ImageQuery {
    /// The engine could not be run: the system's message.
    NotRun(String),
    /// The engine ran and ended without success.
    Failed,
    /// The engine printed this list.
    Listed(String),
}

/// What an `ImageQuery` holds.
pub enum ImageQueryView {
    NotRun(Seq<char>),
    Failed,
    Listed(Seq<char>),
}

impl View for ImageQuery {
    type V = ImageQueryView;

    open spec fn view(&self) -> ImageQueryView {
        match self {
            ImageQuery::NotRun(message) => ImageQueryView::NotRun(message@),
            ImageQuery::Failed => ImageQueryView::Failed,
            ImageQuery::Listed(listing) => ImageQueryView::Listed(listing@),
        }
    }
}

/// The format in which the engine is asked to print each image.
pub const IMAGE_FORMAT: &'static str = "{{.Repository}}:{{.Tag}}";

/// The arguments with which the engine is asked for the images that
/// `image_name` refers to.
pub open spec fn image_query(image_name: Seq<char>) -> Seq<Seq<char>> {
    seq!["images"@, "--format"@, IMAGE_FORMAT@, "--filter"@, "reference="@ + image_name]
}

/// The arguments with which the engine is asked for the images that
/// `image_name` refers to.
pub fn image_query_arguments(image_name: &str) -> (arguments: Vec<String>)
    ensures
        crate::text::texts(arguments@) == image_query(image_name@),
{
    let mut filter = String::from_str("reference=");
    filter.append(image_name);
    let arguments = vec![
        String::from_str("images"),
        String::from_str("--format"),
        String::from_str(IMAGE_FORMAT),
        String::from_str("--filter"),
        filter,
    ];
    assert(crate::text::texts(arguments@) =~= image_query(image_name@));
    arguments
}

/// Whether the image exists, given what came of asking the engine.
pub open spec fn image_exists(image_name: Seq<char>, query: ImageQueryView) -> Result<
    bool,
    Seq<char>,
> {
    match query {
        ImageQueryView::NotRun(message) => Err("Failed to check Docker images: "@ + message),
        ImageQueryView::Failed => Err("Failed to list Docker images"@),
        ImageQueryView::Listed(listing) => Ok(lists_image(listing, image_name)),
    }
}

/// Decides whether the engine has the image that `image_name` asks for,
/// from what came of asking the engine for its list.
pub fn check_docker_image_exists(image_name: &str, query: &ImageQuery) -> (found: Result<
    bool,
    String,
>)
    ensures
        match found {
            Ok(there) => image_exists(image_name@, query@) == Ok::<bool, Seq<char>>(there),
            Err(why) => image_exists(image_name@, query@) == Err::<bool, Seq<char>>(why@),
        },
{
    match query {
        ImageQuery::NotRun(message) => {
            let mut why = String::from_str("Failed to check Docker images: ");
            why.append(message.as_str());
            Err(why)
        },
        ImageQuery::Failed => Err(String::from_str("Failed to list Docker images")),
        ImageQuery::Listed(listing) => Ok(image_listed(listing.as_str(), image_name)),
    }
}

} // verus!
