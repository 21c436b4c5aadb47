//! The failures that end a run, their kinds, exit codes and messages.

use vstd::prelude::*;
use vstd::string::StringExecFns;

verus! {

/// Exit status of a run that completed.
pub const EXIT_SUCCESS: i32 = 0;

/// Exit status for a path argument that is missing or of the wrong type.
pub const EXIT_INVALID_INPUT: i32 = 1;

/// Exit status for a certificate that cannot be used.
pub const EXIT_KEY_ERROR: i32 = 2;

/// Exit status for a failure of the encryption stream.
pub const EXIT_ENCRYPTION_ERROR: i32 = 3;

/// Exit status for a failed file-system operation.
pub const EXIT_IO_ERROR: i32 = 4;

/// The four kinds of failure. Each is terminal for the run.
#[derive(Clone, Copy, Debug, PartialEq, Eq, Structural)]
pub enum ErrorKind {
    InvalidInput,
    KeyError,
    EncryptionError,
    IoError,
}

impl ErrorKind {
    /// The exit status that the kind maps to.
    pub open spec fn spec_exit_code(self) -> i32 {
        match self {
            ErrorKind::InvalidInput => EXIT_INVALID_INPUT,
            ErrorKind::KeyError => EXIT_KEY_ERROR,
            ErrorKind::EncryptionError => EXIT_ENCRYPTION_ERROR,
            ErrorKind::IoError => EXIT_IO_ERROR,
        }
    }

    pub fn exit_code(self) -> (code: i32)
        ensures
            code == self.spec_exit_code(),
            code != EXIT_SUCCESS,
    {
        match self {
            ErrorKind::InvalidInput => EXIT_INVALID_INPUT,
            ErrorKind::KeyError => EXIT_KEY_ERROR,
            ErrorKind::EncryptionError => EXIT_ENCRYPTION_ERROR,
            ErrorKind::IoError => EXIT_IO_ERROR,
        }
    }
}

/// The operation or check that failed.
#[derive(Clone, Copy, Debug, PartialEq, Eq, Structural)]
pub enum Cause {
    /// The input folder is missing or is not a directory.
    InputFolder,
    /// The output path exists and is not a directory.
    OutputNotDirectory,
    /// The key file is missing.
    KeyFileMissing,
    /// The output root could not be created.
    CreateOutputDirectory,
    /// The key file could not be read.
    ReadKey,
    /// The key file does not hold a certificate.
    InvalidKey,
    /// The certificate has no key that may receive the ciphertext.
    NoRecipient,
    /// The walk of the input folder met an entry that it could not read.
    WalkEntry,
    /// An input file could not be read.
    ReadFile,
    /// The encryptor could not be set up.
    CreateEncryptor,
    /// The literal-data writer could not be set up.
    CreateWriter,
    /// The plaintext could not be written into the stream.
    WriteData,
    /// The stream could not be finalized.
    Finalize,
    /// The directories above an output file could not be created.
    CreateParents,
    /// An output file could not be written.
    WriteOutput,
    /// The temporary sibling of an input file could not be written.
    WriteTemporary,
    /// The temporary sibling could not be renamed over the input file.
    Replace,
}

impl Cause {
    /// The kind of failure that the cause belongs to.
    pub open spec fn spec_kind(self) -> ErrorKind {
        match self {
            Cause::InputFolder | Cause::OutputNotDirectory | Cause::KeyFileMissing => {
                ErrorKind::InvalidInput
            },
            Cause::InvalidKey | Cause::NoRecipient => ErrorKind::KeyError,
            Cause::CreateEncryptor | Cause::CreateWriter | Cause::WriteData | Cause::Finalize => {
                ErrorKind::EncryptionError
            },
            Cause::CreateOutputDirectory
            | Cause::ReadKey
            | Cause::WalkEntry
            | Cause::ReadFile
            | Cause::CreateParents
            | Cause::WriteOutput
            | Cause::WriteTemporary
            | Cause::Replace => ErrorKind::IoError,
        }
    }

    pub fn kind(self) -> (kind: ErrorKind)
        ensures
            kind == self.spec_kind(),
    {
        match self {
            Cause::InputFolder | Cause::OutputNotDirectory | Cause::KeyFileMissing => {
                ErrorKind::InvalidInput
            },
            Cause::InvalidKey | Cause::NoRecipient => ErrorKind::KeyError,
            Cause::CreateEncryptor | Cause::CreateWriter | Cause::WriteData | Cause::Finalize => {
                ErrorKind::EncryptionError
            },
            Cause::CreateOutputDirectory
            | Cause::ReadKey
            | Cause::WalkEntry
            | Cause::ReadFile
            | Cause::CreateParents
            | Cause::WriteOutput
            | Cause::WriteTemporary
            | Cause::Replace => ErrorKind::IoError,
        }
    }
}

/// A failure with the path it concerns and the detail that the failed
/// operation reported. A cause that has no path or no detail leaves the
/// field empty.
#[derive(Clone, Debug, PartialEq, Eq)]
pub struct Failure {
    pub cause: Cause,
    pub path: String,
    pub detail: String,
}

/// The mathematical value of a [`Failure`].
pub struct FailureView {
    pub cause: Cause,
    pub path: Seq<char>,
    pub detail: Seq<char>,
}

impl View for Failure {
    type V = FailureView;

    open spec fn view(&self) -> FailureView {
        FailureView { cause: self.cause, path: self.path@, detail: self.detail@ }
    }
}

impl FailureView {
    /// A failure that concerns a path and carries no detail.
    pub open spec fn at(cause: Cause, path: Seq<char>) -> FailureView {
        FailureView { cause, path, detail: Seq::empty() }
    }

    /// A failure that carries the detail of a failed operation and no path.
    pub open spec fn with_detail(cause: Cause, detail: Seq<char>) -> FailureView {
        FailureView { cause, path: Seq::empty(), detail }
    }

    /// A failure with neither path nor detail.
    pub open spec fn bare(cause: Cause) -> FailureView {
        FailureView { cause, path: Seq::empty(), detail: Seq::empty() }
    }

    pub open spec fn kind(self) -> ErrorKind {
        self.cause.spec_kind()
    }

    pub open spec fn exit_code(self) -> i32 {
        self.kind().spec_exit_code()
    }

    /// The one-line message that describes the failure.
    pub open spec fn message(self) -> Seq<char> {
        match self.cause {
            Cause::InputFolder => "Input folder '"@ + self.path
                + "' does not exist or is not a directory"@,
            Cause::OutputNotDirectory => "Output path '"@ + self.path + "' is not a directory"@,
            Cause::KeyFileMissing => "Public key file '"@ + self.path + "' does not exist"@,
            Cause::CreateOutputDirectory => "Failed to create output directory: "@ + self.detail,
            Cause::ReadKey => "Failed to read public key: "@ + self.detail,
            Cause::InvalidKey => "Invalid public key: "@ + self.detail,
            Cause::NoRecipient => "No valid encryption key found in the certificate"@,
            Cause::WalkEntry => "Failed to walk input folder: "@ + self.detail,
            Cause::ReadFile => "Failed to read "@ + self.path + ": "@ + self.detail,
            Cause::CreateEncryptor => "Failed to create encryptor: "@ + self.detail,
            Cause::CreateWriter => "Failed to create writer: "@ + self.detail,
            Cause::WriteData => "Failed to write data: "@ + self.detail,
            Cause::Finalize => "Failed to finalize encryption: "@ + self.detail,
            Cause::CreateParents => "Failed to create output directories: "@ + self.detail,
            Cause::WriteOutput => "Failed to write encrypted file "@ + self.path + ": "@
                + self.detail,
            Cause::WriteTemporary => "Failed to write temporary file "@ + self.path + ": "@
                + self.detail,
            Cause::Replace => "Failed to replace "@ + self.path + ": "@ + self.detail,
        }
    }
}

/// `prefix`, then `path`, then `suffix`.
fn around(prefix: &str, path: &String, suffix: &str) -> (text: String)
    ensures
        text@ == prefix@ + path@ + suffix@,
{
    let mut text = String::from_str(prefix);
    text.append(path.as_str());
    text.append(suffix);
    text
}

/// `prefix`, then `detail`.
fn before(prefix: &str, detail: &String) -> (text: String)
    ensures
        text@ == prefix@ + detail@,
{
    let mut text = String::from_str(prefix);
    text.append(detail.as_str());
    text
}

/// `prefix`, then `path`, a colon and a space, then `detail`.
fn about(prefix: &str, path: &String, detail: &String) -> (text: String)
    ensures
        text@ == prefix@ + path@ + ": "@ + detail@,
{
    let mut text = String::from_str(prefix);
    text.append(path.as_str());
    text.append(": ");
    text.append(detail.as_str());
    text
}

impl Failure {
    /// A failure that concerns `path` and carries no detail.
    pub fn at(cause: Cause, path: String) -> (failure: Failure)
        ensures
            failure@ == FailureView::at(cause, path@),
    {
        Failure { cause, path, detail: String::new() }
    }

    /// A failure that carries `detail` and no path.
    pub fn with_detail(cause: Cause, detail: String) -> (failure: Failure)
        ensures
            failure@ == FailureView::with_detail(cause, detail@),
    {
        Failure { cause, path: String::new(), detail }
    }

    /// A failure with neither path nor detail.
    pub fn bare(cause: Cause) -> (failure: Failure)
        ensures
            failure@ == FailureView::bare(cause),
    {
        Failure { cause, path: String::new(), detail: String::new() }
    }

    pub fn kind(&self) -> (kind: ErrorKind)
        ensures
            kind == self@.kind(),
    {
        self.cause.kind()
    }

    /// The exit status of a run that ends in this failure.
    pub fn exit_code(&self) -> (code: i32)
        ensures
            code == self@.exit_code(),
            code != EXIT_SUCCESS,
    {
        self.cause.kind().exit_code()
    }

    /// The message to print for this failure.
    pub fn message(&self) -> (text: String)
        ensures
            text@ == self@.message(),
    {
        match self.cause {
            Cause::InputFolder => around(
                "Input folder '",
                &self.path,
                "' does not exist or is not a directory",
            ),
            Cause::OutputNotDirectory => around("Output path '", &self.path, "' is not a directory"),
            Cause::KeyFileMissing => around("Public key file '", &self.path, "' does not exist"),
            Cause::CreateOutputDirectory => before(
                "Failed to create output directory: ",
                &self.detail,
            ),
            Cause::ReadKey => before("Failed to read public key: ", &self.detail),
            Cause::InvalidKey => before("Invalid public key: ", &self.detail),
            Cause::NoRecipient => String::from_str(
                "No valid encryption key found in the certificate",
            ),
            Cause::WalkEntry => before("Failed to walk input folder: ", &self.detail),
            Cause::ReadFile => about("Failed to read ", &self.path, &self.detail),
            Cause::CreateEncryptor => before("Failed to create encryptor: ", &self.detail),
            Cause::CreateWriter => before("Failed to create writer: ", &self.detail),
            Cause::WriteData => before("Failed to write data: ", &self.detail),
            Cause::Finalize => before("Failed to finalize encryption: ", &self.detail),
            Cause::CreateParents => before("Failed to create output directories: ", &self.detail),
            Cause::WriteOutput => about("Failed to write encrypted file ", &self.path, &self.detail),
            Cause::WriteTemporary => about(
                "Failed to write temporary file ",
                &self.path,
                &self.detail,
            ),
            Cause::Replace => about("Failed to replace ", &self.path, &self.detail),
        }
    }

    /// The exit status and the message, as the top level reports them.
    pub fn report(&self) -> (pair: (i32, String))
        ensures
            pair.0 == self@.exit_code(),
            pair.1@ == self@.message(),
    {
        (self.exit_code(), self.message())
    }
}

} // verus!
