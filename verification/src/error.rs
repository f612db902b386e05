//! The errors of the library.

use vstd::prelude::*;

verus! {

/// Why an operation failed. No operation recovers from one of these: the
/// first error ends the command.
#[derive(Debug, PartialEq, Eq)]
pub enum PierError {
    /// No path was given and none of the fallback locations exists.
    NoConfigFile,
    /// Initialisation will not replace the file that exists at `path`.
    ConfigInitFileAlreadyExists { path: String },
    /// The file at `path` could not be read.
    ConfigFileRead { path: String, cause: String },
    /// The file at `path` could not be written.
    ConfigFileWrite { path: String, cause: String },
    /// The directory that is to hold the file could not be created.
    CreateDirectory { cause: String },
    /// The content of the file at `path` is not a registry.
    ConfigParse { path: String, cause: String },
    /// The operation needs at least one stored script.
    NoScriptsExists,
    /// No script is stored under `alias`.
    AliasNotFound { alias: String },
    /// A script is stored under `alias` already, and overwriting was not
    /// asked for.
    AliasAlreadyExists { alias: String },
    /// The editor failed or gave no usable text.
    EditorError { cause: String },
}

/// What a [`PierError`] holds, as mathematical sequences of characters.
pub enum ErrorView {
    NoConfigFile,
    ConfigInitFileAlreadyExists { path: Seq<char> },
    ConfigFileRead { path: Seq<char>, cause: Seq<char> },
    ConfigFileWrite { path: Seq<char>, cause: Seq<char> },
    CreateDirectory { cause: Seq<char> },
    ConfigParse { path: Seq<char>, cause: Seq<char> },
    NoScriptsExists,
    AliasNotFound { alias: Seq<char> },
    AliasAlreadyExists { alias: Seq<char> },
    EditorError { cause: Seq<char> },
}

impl View for PierError {
    type V = ErrorView;

    open spec fn view(&self) -> ErrorView {
        match self {
            PierError::NoConfigFile => ErrorView::NoConfigFile,
            PierError::ConfigInitFileAlreadyExists { path } => {
                ErrorView::ConfigInitFileAlreadyExists { path: path@ }
            },
            PierError::ConfigFileRead { path, cause } => ErrorView::ConfigFileRead {
                path: path@,
                cause: cause@,
            },
            PierError::ConfigFileWrite { path, cause } => ErrorView::ConfigFileWrite {
                path: path@,
                cause: cause@,
            },
            PierError::CreateDirectory { cause } => ErrorView::CreateDirectory { cause: cause@ },
            PierError::ConfigParse { path, cause } => ErrorView::ConfigParse {
                path: path@,
                cause: cause@,
            },
            PierError::NoScriptsExists => ErrorView::NoScriptsExists,
            PierError::AliasNotFound { alias } => ErrorView::AliasNotFound { alias: alias@ },
            PierError::AliasAlreadyExists { alias } => ErrorView::AliasAlreadyExists {
                alias: alias@,
            },
            PierError::EditorError { cause } => ErrorView::EditorError { cause: cause@ },
        }
    }
}

/// The result of an operation of the library.
pub type PierResult<T> = Result<T, PierError>;

/// The process exit code for the outcome of a command: 0 when it
/// succeeded, 1 when it failed.
pub fn exit_code<T>(outcome: &PierResult<T>) -> (code: i32)
    ensures
        code == (if outcome is Ok { 0int } else { 1int }),
{
    match outcome {
        Ok(_) => 0,
        Err(_) => 1,
    }
}

} // verus!
