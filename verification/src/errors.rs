//! The failures that reading and writing a scene can end in.

use vstd::prelude::*;
use vstd::string::StringExecFns;

verus! {

/// A failure, with what it says as plain text.
pub enum SceneFault {
    FailedToEncode(Seq<char>),
    FailedToDecode(Seq<char>),
    IOError(Seq<char>),
    FailedToReadObj(Seq<char>),
}

/// Why a scene could not be written or read.
#[derive(Debug, PartialEq, Eq)]
pub enum SceneIOError {
    /// The scene could not be serialized.
    FailedToEncode { description: String },
    /// The input is no scene: it has the wrong shape, lacks something
    /// mandatory, or is in neither encoding.
    FailedToDecode { description: String },
    /// The file system refused; the description is the system's own.
    IOError { description: String },
    /// A geometry file could not be opened, or a number in it could not be
    /// read.
    FailedToReadObj { description: String },
}

impl View for SceneIOError {
    type V = SceneFault;

    open spec fn view(&self) -> SceneFault {
        match self {
            SceneIOError::FailedToEncode { description } => SceneFault::FailedToEncode(
                description@,
            ),
            SceneIOError::FailedToDecode { description } => SceneFault::FailedToDecode(
                description@,
            ),
            SceneIOError::IOError { description } => SceneFault::IOError(description@),
            SceneIOError::FailedToReadObj { description } => SceneFault::FailedToReadObj(
                description@,
            ),
        }
    }
}

impl SceneFault {
    /// The words that introduce a failure of each kind.
    pub open spec fn heading(self) -> Seq<char> {
        match self {
            SceneFault::FailedToEncode(_) => "Failed to encode: "@,
            SceneFault::FailedToDecode(_) => "Failed to decode: "@,
            SceneFault::IOError(_) => "IO Error: "@,
            SceneFault::FailedToReadObj(_) => "Failed to read obj file: "@,
        }
    }

    pub open spec fn description(self) -> Seq<char> {
        match self {
            SceneFault::FailedToEncode(d) => d,
            SceneFault::FailedToDecode(d) => d,
            SceneFault::IOError(d) => d,
            SceneFault::FailedToReadObj(d) => d,
        }
    }

    /// The failure as one line of text: the heading, then the description.
    pub open spec fn message(self) -> Seq<char> {
        self.heading() + self.description()
    }
}

impl SceneIOError {
    /// A decoding failure with the given description.
    pub fn decoding(description: &str) -> (r: SceneIOError)
        ensures
            r@ == SceneFault::FailedToDecode(description@),
    {
        SceneIOError::FailedToDecode { description: String::from_str(description) }
    }

    /// The failure as one line of text.
    pub fn message(&self) -> (r: String)
        ensures
            r@ == self@.message(),
    {
        match self {
            SceneIOError::FailedToEncode { description } => String::from_str(
                "Failed to encode: ",
            ).concat(description.as_str()),
            SceneIOError::FailedToDecode { description } => String::from_str(
                "Failed to decode: ",
            ).concat(description.as_str()),
            SceneIOError::IOError { description } => String::from_str("IO Error: ").concat(
                description.as_str(),
            ),
            SceneIOError::FailedToReadObj { description } => String::from_str(
                "Failed to read obj file: ",
            ).concat(description.as_str()),
        }
    }
}

} // verus!
