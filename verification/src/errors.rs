use vstd::prelude::*;

verus! {

/// Every failure the crate can report, each carrying the human-readable
/// context the command line needs: the offending service or encoding name,
/// or the backend's raw response text.
#[derive(Debug)]
pub enum AppError {
    /// A file or stream could not be read.
    Io(String),
    /// The image could not be decoded or re-encoded.
    Image(String),
    /// A backend was reached but reported or implied failure.
    Upload(String),
    /// The input path does not name an existing file.
    FileNotFound(String),
    /// The network transport failed before a backend answered.
    Http(String),
    /// The chosen credential or encoding does not fit the chosen service.
    Config(String),
    /// A service identifier outside the closed enumeration was named.
    UnsupportedService(String),
}

impl AppError {
    /// The message carried by the error, whatever its kind.
    pub fn message(&self) -> (r: &String)
        ensures
            r == self.spec_message(),
    {
        match self {
            AppError::Io(m) => m,
            AppError::Image(m) => m,
            AppError::Upload(m) => m,
            AppError::FileNotFound(m) => m,
            AppError::Http(m) => m,
            AppError::Config(m) => m,
            AppError::UnsupportedService(m) => m,
        }
    }

    pub open spec fn spec_message(&self) -> String {
        match self {
            AppError::Io(m) => *m,
            AppError::Image(m) => *m,
            AppError::Upload(m) => *m,
            AppError::FileNotFound(m) => *m,
            AppError::Http(m) => *m,
            AppError::Config(m) => *m,
            AppError::UnsupportedService(m) => *m,
        }
    }
}

} // verus!
