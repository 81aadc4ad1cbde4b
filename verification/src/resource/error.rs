//! How loading fails.
use vstd::prelude::*;

use crate::resource::{LoadStatus, ObjectId};

verus! {

/// Why a background load failed.
#[derive(Debug)]
pub enum ThreadedLoadError {
    MissingResource(String),
    NoTree,
    UnrecognizedTree,
    ResultMissing,
    Failed,
    InvalidResource,
    UnrecognizedLoadStatus(LoadStatus),
}

/// Why no node came out of a background load.
#[derive(Debug)]
pub enum ThreadedNodeLoadError<Value> {
    Load(ThreadedLoadError),
    NullArgument,
    UnrecognizedArgument(Value),
    NotAPackedScene(ObjectId),
    Object(ObjectToNodeError),
}

/// Why a load failed.
#[derive(Clone, Debug)]
pub enum LoadError<Value> {
    Unknown,
    NullArgument,
    UnrecognizedArgument(Value),
}

/// Why no node came out of a value.
#[derive(Clone, Debug)]
pub enum LoadNodeError<Value> {
    Load(LoadError<Value>),
    Object(ObjectToNodeError),
}

/// Why no node came out of a path.
#[derive(Debug)]
pub enum LoadNodeFromPathError<Value> {
    Load(LoadError<Value>),
    Resource(ResourceToNodeError),
}

/// Why no node came out of a resource.
#[derive(Clone, Copy, Debug, PartialEq, Eq, Structural)]
pub enum ResourceToNodeError {
    UnrecognizedType(ObjectId),
    CouldNotInstantiate(ObjectId),
}

/// Why no node came out of an object.
#[derive(Clone, Copy, Debug, PartialEq, Eq, Structural)]
pub enum ObjectToNodeError {
    UnrecognizedType(ObjectId),
    CouldNotInstantiate(ObjectId),
}

/// `before` and then `shown`.
fn prefixed(before: &str, shown: &str) -> (text: String)
    ensures
        text@ == before@ + shown@,
{
    let mut text: String = before.to_owned();
    text.append(shown);
    text
}

impl ThreadedLoadError {
    /// The error in words, where a load status that it holds is shown as `shown`.
    pub open spec fn spec_message(self, shown: Seq<char>) -> Seq<char> {
        match self {
            ThreadedLoadError::MissingResource(path) =>
                "could not find a resource at the given path: "@ + path@,
            ThreadedLoadError::NoTree => "could not find scene tree"@,
            ThreadedLoadError::UnrecognizedTree =>
                "found scene tree, but it was of an unrecognized type"@,
            ThreadedLoadError::ResultMissing =>
                "load_threaded_get_status returned LOADED, but load_threaded_get returned nothing"@,
            ThreadedLoadError::Failed =>
                "unknown error occurred during loading (ResourceLoader.load_threaded_get_status does not return error information)"@,
            ThreadedLoadError::InvalidResource => "the requested resource is invalid"@,
            ThreadedLoadError::UnrecognizedLoadStatus(_) => "unrecognized load status: "@ + shown,
        }
    }

    /// The error in words, where a load status that it holds is shown as `shown`.
    pub fn message(&self, shown: &str) -> (text: String)
        ensures
            text@ == self.spec_message(shown@),
    {
        match self {
            ThreadedLoadError::MissingResource(path) => prefixed(
                "could not find a resource at the given path: ",
                path.as_str(),
            ),
            ThreadedLoadError::NoTree => "could not find scene tree".to_owned(),
            ThreadedLoadError::UnrecognizedTree =>
                "found scene tree, but it was of an unrecognized type".to_owned(),
            ThreadedLoadError::ResultMissing =>
                "load_threaded_get_status returned LOADED, but load_threaded_get returned nothing".to_owned(),
            ThreadedLoadError::Failed =>
                "unknown error occurred during loading (ResourceLoader.load_threaded_get_status does not return error information)".to_owned(),
            ThreadedLoadError::InvalidResource => "the requested resource is invalid".to_owned(),
            ThreadedLoadError::UnrecognizedLoadStatus(_) => prefixed(
                "unrecognized load status: ",
                shown,
            ),
        }
    }
}

impl<Value> ThreadedNodeLoadError<Value> {
    /// The error in words, where what it holds is shown as `shown`.
    pub fn message(&self, shown: &str) -> (text: String)
        ensures
            text@ == match *self {
                ThreadedNodeLoadError::Load(error) => error.spec_message(shown@),
                ThreadedNodeLoadError::NullArgument => "null argument"@,
                ThreadedNodeLoadError::UnrecognizedArgument(_) => "unrecognized argument: "@
                    + shown@,
                ThreadedNodeLoadError::NotAPackedScene(_) =>
                    "the loaded resource was not a PackedScene: "@ + shown@,
                ThreadedNodeLoadError::Object(error) => error.spec_message(shown@),
            },
    {
        match self {
            ThreadedNodeLoadError::Load(error) => error.message(shown),
            ThreadedNodeLoadError::NullArgument => "null argument".to_owned(),
            ThreadedNodeLoadError::UnrecognizedArgument(_) => prefixed(
                "unrecognized argument: ",
                shown,
            ),
            ThreadedNodeLoadError::NotAPackedScene(_) => prefixed(
                "the loaded resource was not a PackedScene: ",
                shown,
            ),
            ThreadedNodeLoadError::Object(error) => error.message(shown),
        }
    }
}

impl<Value> LoadError<Value> {
    /// The error in words, where a value that it holds is shown as `shown`.
    pub open spec fn spec_message(self, shown: Seq<char>) -> Seq<char> {
        match self {
            LoadError::Unknown =>
                "unknown error occurred during loading (ResourceLoader.load does not return error information)"@,
            LoadError::NullArgument => "null argument"@,
            LoadError::UnrecognizedArgument(_) => "unrecognized argument: "@ + shown,
        }
    }

    /// The error in words, where a value that it holds is shown as `shown`.
    pub fn message(&self, shown: &str) -> (text: String)
        ensures
            text@ == self.spec_message(shown@),
    {
        match self {
            LoadError::Unknown =>
                "unknown error occurred during loading (ResourceLoader.load does not return error information)".to_owned(),
            LoadError::NullArgument => "null argument".to_owned(),
            LoadError::UnrecognizedArgument(_) => prefixed("unrecognized argument: ", shown),
        }
    }
}

impl<Value> LoadNodeError<Value> {
    /// The error in words, where what it holds is shown as `shown`.
    pub fn message(&self, shown: &str) -> (text: String)
        ensures
            text@ == match *self {
                LoadNodeError::Load(error) => error.spec_message(shown@),
                LoadNodeError::Object(error) => error.spec_message(shown@),
            },
    {
        match self {
            LoadNodeError::Load(error) => error.message(shown),
            LoadNodeError::Object(error) => error.message(shown),
        }
    }
}

impl<Value> LoadNodeFromPathError<Value> {
    /// The error in words, where what it holds is shown as `shown`.
    pub open spec fn spec_message(self, shown: Seq<char>) -> Seq<char> {
        match self {
            LoadNodeFromPathError::Load(error) => error.spec_message(shown),
            LoadNodeFromPathError::Resource(error) => error.spec_message(shown),
        }
    }

    /// The error in words, where what it holds is shown as `shown`.
    pub fn message(&self, shown: &str) -> (text: String)
        ensures
            text@ == self.spec_message(shown@),
    {
        match self {
            LoadNodeFromPathError::Load(error) => error.message(shown),
            LoadNodeFromPathError::Resource(error) => error.message(shown),
        }
    }
}

impl ResourceToNodeError {
    /// The error in words, where the resource is shown as `shown`.
    pub open spec fn spec_message(self, shown: Seq<char>) -> Seq<char> {
        match self {
            ResourceToNodeError::UnrecognizedType(_) => "expected PackedScene, found "@ + shown,
            ResourceToNodeError::CouldNotInstantiate(_) => "could not instantiate Node from "@
                + shown,
        }
    }

    /// The error in words, where the resource is shown as `shown`.
    pub fn message(&self, shown: &str) -> (text: String)
        ensures
            text@ == self.spec_message(shown@),
    {
        match self {
            ResourceToNodeError::UnrecognizedType(_) => prefixed(
                "expected PackedScene, found ",
                shown,
            ),
            ResourceToNodeError::CouldNotInstantiate(_) => prefixed(
                "could not instantiate Node from ",
                shown,
            ),
        }
    }
}

impl ObjectToNodeError {
    /// The error in words, where the object is shown as `shown`.
    pub open spec fn spec_message(self, shown: Seq<char>) -> Seq<char> {
        match self {
            ObjectToNodeError::UnrecognizedType(_) => "expected Node or PackedScene, found "@
                + shown,
            ObjectToNodeError::CouldNotInstantiate(_) => "could not instantiate Node from "@
                + shown,
        }
    }

    /// The error in words, where the object is shown as `shown`.
    pub fn message(&self, shown: &str) -> (text: String)
        ensures
            text@ == self.spec_message(shown@),
    {
        match self {
            ObjectToNodeError::UnrecognizedType(_) => prefixed(
                "expected Node or PackedScene, found ",
                shown,
            ),
            ObjectToNodeError::CouldNotInstantiate(_) => prefixed(
                "could not instantiate Node from ",
                shown,
            ),
        }
    }
}

impl<Value> From<ThreadedLoadError> for ThreadedNodeLoadError<Value> {
    fn from(value: ThreadedLoadError) -> (error: Self) {
        ThreadedNodeLoadError::Load(value)
    }
}

impl<Value> vstd::std_specs::convert::FromSpecImpl<ThreadedLoadError> for ThreadedNodeLoadError<Value> {
    open spec fn obeys_from_spec() -> bool {
        true
    }

    open spec fn from_spec(value: ThreadedLoadError) -> Self {
        ThreadedNodeLoadError::Load(value)
    }
}

impl<Value> From<ObjectToNodeError> for ThreadedNodeLoadError<Value> {
    fn from(value: ObjectToNodeError) -> (error: Self) {
        ThreadedNodeLoadError::Object(value)
    }
}

impl<Value> vstd::std_specs::convert::FromSpecImpl<ObjectToNodeError> for ThreadedNodeLoadError<Value> {
    open spec fn obeys_from_spec() -> bool {
        true
    }

    open spec fn from_spec(value: ObjectToNodeError) -> Self {
        ThreadedNodeLoadError::Object(value)
    }
}

impl<Value> From<LoadError<Value>> for LoadNodeError<Value> {
    fn from(value: LoadError<Value>) -> (error: Self) {
        LoadNodeError::Load(value)
    }
}

impl<Value> vstd::std_specs::convert::FromSpecImpl<LoadError<Value>> for LoadNodeError<Value> {
    open spec fn obeys_from_spec() -> bool {
        true
    }

    open spec fn from_spec(value: LoadError<Value>) -> Self {
        LoadNodeError::Load(value)
    }
}

impl<Value> From<ObjectToNodeError> for LoadNodeError<Value> {
    fn from(value: ObjectToNodeError) -> (error: Self) {
        LoadNodeError::Object(value)
    }
}

impl<Value> vstd::std_specs::convert::FromSpecImpl<ObjectToNodeError> for LoadNodeError<Value> {
    open spec fn obeys_from_spec() -> bool {
        true
    }

    open spec fn from_spec(value: ObjectToNodeError) -> Self {
        LoadNodeError::Object(value)
    }
}

impl<Value> From<LoadError<Value>> for LoadNodeFromPathError<Value> {
    fn from(value: LoadError<Value>) -> (error: Self) {
        LoadNodeFromPathError::Load(value)
    }
}

impl<Value> vstd::std_specs::convert::FromSpecImpl<LoadError<Value>> for LoadNodeFromPathError<Value> {
    open spec fn obeys_from_spec() -> bool {
        true
    }

    open spec fn from_spec(value: LoadError<Value>) -> Self {
        LoadNodeFromPathError::Load(value)
    }
}

impl<Value> From<ResourceToNodeError> for LoadNodeFromPathError<Value> {
    fn from(value: ResourceToNodeError) -> (error: Self) {
        LoadNodeFromPathError::Resource(value)
    }
}

impl<Value> vstd::std_specs::convert::FromSpecImpl<ResourceToNodeError> for LoadNodeFromPathError<Value> {
    open spec fn obeys_from_spec() -> bool {
        true
    }

    open spec fn from_spec(value: ResourceToNodeError) -> Self {
        LoadNodeFromPathError::Resource(value)
    }
}

} // verus!
