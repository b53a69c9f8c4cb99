use vstd::prelude::*;

verus! {

/// Every way in which a step of the pipeline can fail.
#[derive(Clone, Debug, PartialEq, Eq)]
pub enum AppError {
    /// The input image is missing or has no pixels; holds the source it was read from.
    ImageNotFound(String),
    /// Resampling or colour conversion failed; holds the reason.
    Processing(String),
    /// The model source is missing, malformed or incompatible; holds the engine's words.
    ModelLoad(String),
    /// The tensor's shape is not one that the loaded graph accepts.
    ShapeMismatch,
    /// The engine failed while it ran the graph; holds the engine's words.
    Inference(String),
    /// The capture device could not be opened.
    DeviceUnavailable,
}

/// The kind of an error, without the text it carries.
#[derive(Clone, Copy, Debug, PartialEq, Eq, Structural)]
pub enum ErrorKind {
    ImageNotFound,
    Processing,
    ModelLoad,
    ShapeMismatch,
    Inference,
    DeviceUnavailable,
}

impl AppError {
    pub open spec fn spec_kind(&self) -> ErrorKind {
        match self {
            AppError::ImageNotFound(_) => ErrorKind::ImageNotFound,
            AppError::Processing(_) => ErrorKind::Processing,
            AppError::ModelLoad(_) => ErrorKind::ModelLoad,
            AppError::ShapeMismatch => ErrorKind::ShapeMismatch,
            AppError::Inference(_) => ErrorKind::Inference,
            AppError::DeviceUnavailable => ErrorKind::DeviceUnavailable,
        }
    }

    /// The text that the error carries; empty where it carries none.
    pub open spec fn spec_detail(&self) -> Seq<char> {
        match self {
            AppError::ImageNotFound(s) => s@,
            AppError::Processing(s) => s@,
            AppError::ModelLoad(s) => s@,
            AppError::ShapeMismatch => Seq::empty(),
            AppError::Inference(s) => s@,
            AppError::DeviceUnavailable => Seq::empty(),
        }
    }

    pub fn kind(&self) -> (k: ErrorKind)
        ensures
            k == self.spec_kind(),
    {
        match self {
            AppError::ImageNotFound(_) => ErrorKind::ImageNotFound,
            AppError::Processing(_) => ErrorKind::Processing,
            AppError::ModelLoad(_) => ErrorKind::ModelLoad,
            AppError::ShapeMismatch => ErrorKind::ShapeMismatch,
            AppError::Inference(_) => ErrorKind::Inference,
            AppError::DeviceUnavailable => ErrorKind::DeviceUnavailable,
        }
    }
}

} // verus!
