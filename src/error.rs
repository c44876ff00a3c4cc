//! Failures of request handling and the HTTP status each one maps to.

use vstd::prelude::*;

verus! {

/// The statuses that the classify endpoint answers with.
#[derive(PartialEq, Eq, Structural, Clone, Copy, Debug)]
pub enum Status {
    Success,
    BadRequest,
    InternalServerError,
}

pub open spec fn status_code(s: Status) -> u16 {
    match s {
        Status::Success => 200,
        Status::BadRequest => 400,
        Status::InternalServerError => 500,
    }
}

impl Status {
    pub fn code(&self) -> (r: u16)
        ensures
            r == status_code(*self),
    {
        match self {
            Status::Success => 200,
            Status::BadRequest => 400,
            Status::InternalServerError => 500,
        }
    }
}

#[derive(PartialEq, Eq, Structural, Clone, Copy, Debug)]
pub enum ClassifyError {
    /// The image text is not valid base64.
    Decode,
    /// The multipart form holds no file field named `image`.
    MissingField,
    /// The multipart body could not be parsed.
    Parse,
    /// The scratch file could not be created or written.
    FileWrite,
    /// The image file is not on disk when the classifier is to run.
    FileMissing,
    /// The classifier program could not be started.
    Spawn,
    /// The classifier program exited with a failure status.
    ClassifierFailure,
}

/// Malformed input is the client's fault; everything else is the server's.
pub open spec fn error_status(e: ClassifyError) -> Status {
    match e {
        ClassifyError::Decode | ClassifyError::MissingField | ClassifyError::Parse => Status::BadRequest,
        _ => Status::InternalServerError,
    }
}

impl ClassifyError {
    pub fn status(&self) -> (r: Status)
        ensures
            r == error_status(*self),
    {
        match self {
            ClassifyError::Decode | ClassifyError::MissingField | ClassifyError::Parse => Status::BadRequest,
            _ => Status::InternalServerError,
        }
    }
}

} // verus!
