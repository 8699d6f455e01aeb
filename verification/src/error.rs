//! The failures of the pipeline, sorted into four categories.

use vstd::prelude::*;

verus! {

/// The class of a failure. Each class has an exit code of its own.
#[derive(Clone, Copy, Debug, PartialEq, Eq, Hash, Structural)]
pub enum Category {
    /// The request itself is wrong or incomplete.
    Input,
    /// A format is not supported, or the pair of formats is not.
    Format,
    /// Decoding or encoding failed.
    Conversion,
    /// The file system refused something.
    Io,
}

/// What went wrong, without the detail.
#[derive(Clone, Copy, Debug, PartialEq, Eq, Hash, Structural)]
pub enum ErrorKind {
    MissingInputFile,
    MissingTargetFormat,
    InvalidArgument,
    UnsupportedInput,
    UnsupportedOutput,
    PluginLoadFailed,
    ExecutionFailed,
    OutputWriteFailed,
    ReadError,
    WriteError,
    PermissionDenied,
}

/// The mathematical value of an error: what went wrong, and the path, the
/// format or the cause that it names.
pub struct Failure {
    pub kind: ErrorKind,
    pub detail: Seq<char>,
}

impl Category {
    /// The exit code of the category.
    pub open spec fn code(self) -> u8 {
        match self {
            Category::Input => 2,
            Category::Format => 3,
            Category::Conversion => 4,
            Category::Io => 5,
        }
    }
}

impl ErrorKind {
    /// The category that the kind belongs to.
    pub open spec fn category(self) -> Category {
        match self {
            ErrorKind::MissingInputFile
            | ErrorKind::MissingTargetFormat
            | ErrorKind::InvalidArgument => Category::Input,
            ErrorKind::UnsupportedInput | ErrorKind::UnsupportedOutput => Category::Format,
            ErrorKind::PluginLoadFailed
            | ErrorKind::ExecutionFailed
            | ErrorKind::OutputWriteFailed => Category::Conversion,
            ErrorKind::ReadError | ErrorKind::WriteError | ErrorKind::PermissionDenied => Category::Io,
        }
    }
}

impl ErrorKind {
    /// The words that open the message of a failure of this kind.
    pub open spec fn lead(self) -> Seq<char> {
        match self {
            ErrorKind::MissingInputFile => "Missing input file: "@,
            ErrorKind::MissingTargetFormat => "Missing target format (--to)"@,
            ErrorKind::InvalidArgument => "Invalid argument: "@,
            ErrorKind::UnsupportedInput => "unsupported input format "@,
            ErrorKind::UnsupportedOutput => "unsupported output format "@,
            ErrorKind::PluginLoadFailed => "plugin load failed: "@,
            ErrorKind::ExecutionFailed => "execution failed: "@,
            ErrorKind::OutputWriteFailed => "output write failed: "@,
            ErrorKind::ReadError => "read error: "@,
            ErrorKind::WriteError => "write error: "@,
            ErrorKind::PermissionDenied => "permission denied: "@,
        }
    }

    /// What closes the message of a failure of this kind.
    pub open spec fn tail(self) -> Seq<char> {
        match self {
            ErrorKind::InvalidArgument => " "@,
            _ => Seq::empty(),
        }
    }
}

impl Failure {
    /// The category of the failure.
    pub open spec fn category(self) -> Category {
        self.kind.category()
    }

    /// The line shown to the user: the words of the kind around the detail.
    pub open spec fn message(self) -> Seq<char> {
        self.kind.lead() + self.detail + self.kind.tail()
    }
}

/// A request that is wrong or incomplete.
#[derive(Debug, PartialEq, Eq)]
pub enum InputError {
    /// The input path names no regular file.
    MissingInputFile(String),
    /// No target format was given.
    MissingTargetFormat,
    /// An argument cannot be used; the text says which.
    InvalidArgument(String),
}

/// A format, or a pair of formats, that is not supported.
#[derive(Debug, PartialEq, Eq)]
pub enum FormatError {
    /// The input's extension stands for no supported format.
    UnsupportedInput(String),
    /// The input's format cannot be converted to the one asked for.
    UnsupportedOutput(String),
}

/// A failure of the codec.
#[derive(Debug, PartialEq, Eq)]
pub enum ConversionError {
    PluginLoadFailed(String),
    /// The input could not be read or decoded.
    ExecutionFailed(String),
    /// The output could not be encoded or written.
    OutputWriteFailed(String),
}

/// A refusal by the file system, with the path it concerns.
#[derive(Debug, PartialEq, Eq)]
pub enum IoError {
    ReadError(String),
    WriteError(String),
    PermissionDenied(String),
}

/// Any failure of the pipeline.
#[derive(Debug, PartialEq, Eq)]
pub enum MeltforgeError {
    Input(InputError),
    Format(FormatError),
    Conversion(ConversionError),
    Io(IoError),
}

impl View for InputError {
    type V = Failure;

    open spec fn view(&self) -> Failure {
        match *self {
            InputError::MissingInputFile(path) => Failure {
                kind: ErrorKind::MissingInputFile,
                detail: path@,
            },
            InputError::MissingTargetFormat => Failure {
                kind: ErrorKind::MissingTargetFormat,
                detail: Seq::empty(),
            },
            InputError::InvalidArgument(text) => Failure {
                kind: ErrorKind::InvalidArgument,
                detail: text@,
            },
        }
    }
}

impl View for FormatError {
    type V = Failure;

    open spec fn view(&self) -> Failure {
        match *self {
            FormatError::UnsupportedInput(ext) => Failure {
                kind: ErrorKind::UnsupportedInput,
                detail: ext@,
            },
            FormatError::UnsupportedOutput(pair) => Failure {
                kind: ErrorKind::UnsupportedOutput,
                detail: pair@,
            },
        }
    }
}

impl View for ConversionError {
    type V = Failure;

    open spec fn view(&self) -> Failure {
        match *self {
            ConversionError::PluginLoadFailed(cause) => Failure {
                kind: ErrorKind::PluginLoadFailed,
                detail: cause@,
            },
            ConversionError::ExecutionFailed(cause) => Failure {
                kind: ErrorKind::ExecutionFailed,
                detail: cause@,
            },
            ConversionError::OutputWriteFailed(cause) => Failure {
                kind: ErrorKind::OutputWriteFailed,
                detail: cause@,
            },
        }
    }
}

impl View for IoError {
    type V = Failure;

    open spec fn view(&self) -> Failure {
        match *self {
            IoError::ReadError(path) => Failure { kind: ErrorKind::ReadError, detail: path@ },
            IoError::WriteError(path) => Failure { kind: ErrorKind::WriteError, detail: path@ },
            IoError::PermissionDenied(path) => Failure {
                kind: ErrorKind::PermissionDenied,
                detail: path@,
            },
        }
    }
}

impl View for MeltforgeError {
    type V = Failure;

    open spec fn view(&self) -> Failure {
        match *self {
            MeltforgeError::Input(e) => e@,
            MeltforgeError::Format(e) => e@,
            MeltforgeError::Conversion(e) => e@,
            MeltforgeError::Io(e) => e@,
        }
    }
}

impl From<InputError> for MeltforgeError {
    fn from(e: InputError) -> (wrapped: MeltforgeError) {
        MeltforgeError::Input(e)
    }
}

impl vstd::std_specs::convert::FromSpecImpl<InputError> for MeltforgeError {
    open spec fn obeys_from_spec() -> bool {
        true
    }

    open spec fn from_spec(e: InputError) -> MeltforgeError {
        MeltforgeError::Input(e)
    }
}

impl From<FormatError> for MeltforgeError {
    fn from(e: FormatError) -> (wrapped: MeltforgeError) {
        MeltforgeError::Format(e)
    }
}

impl vstd::std_specs::convert::FromSpecImpl<FormatError> for MeltforgeError {
    open spec fn obeys_from_spec() -> bool {
        true
    }

    open spec fn from_spec(e: FormatError) -> MeltforgeError {
        MeltforgeError::Format(e)
    }
}

impl From<ConversionError> for MeltforgeError {
    fn from(e: ConversionError) -> (wrapped: MeltforgeError) {
        MeltforgeError::Conversion(e)
    }
}

impl vstd::std_specs::convert::FromSpecImpl<ConversionError> for MeltforgeError {
    open spec fn obeys_from_spec() -> bool {
        true
    }

    open spec fn from_spec(e: ConversionError) -> MeltforgeError {
        MeltforgeError::Conversion(e)
    }
}

impl From<IoError> for MeltforgeError {
    fn from(e: IoError) -> (wrapped: MeltforgeError) {
        MeltforgeError::Io(e)
    }
}

impl vstd::std_specs::convert::FromSpecImpl<IoError> for MeltforgeError {
    open spec fn obeys_from_spec() -> bool {
        true
    }

    open spec fn from_spec(e: IoError) -> MeltforgeError {
        MeltforgeError::Io(e)
    }
}

impl Category {
    /// Returns the exit code of the category.
    pub fn exit_code(self) -> (code: u8)
        ensures
            code == self.code(),
    {
        match self {
            Category::Input => 2,
            Category::Format => 3,
            Category::Conversion => 4,
            Category::Io => 5,
        }
    }
}

impl InputError {
    /// Returns the line shown to the user.
    pub fn message(&self) -> (text: String)
        ensures
            text@ == self@.message(),
    {
        match self {
            InputError::MissingInputFile(path) => {
                String::from_str("Missing input file: ").concat(path.as_str())
            },
            InputError::MissingTargetFormat => String::from_str("Missing target format (--to)"),
            InputError::InvalidArgument(text) => {
                String::from_str("Invalid argument: ").concat(text.as_str()).concat(" ")
            },
        }
    }
}

impl FormatError {
    /// Returns the line shown to the user.
    pub fn message(&self) -> (text: String)
        ensures
            text@ == self@.message(),
    {
        match self {
            FormatError::UnsupportedInput(ext) => {
                String::from_str("unsupported input format ").concat(ext.as_str())
            },
            FormatError::UnsupportedOutput(pair) => {
                String::from_str("unsupported output format ").concat(pair.as_str())
            },
        }
    }
}

impl ConversionError {
    /// Returns the line shown to the user.
    pub fn message(&self) -> (text: String)
        ensures
            text@ == self@.message(),
    {
        match self {
            ConversionError::PluginLoadFailed(cause) => {
                String::from_str("plugin load failed: ").concat(cause.as_str())
            },
            ConversionError::ExecutionFailed(cause) => {
                String::from_str("execution failed: ").concat(cause.as_str())
            },
            ConversionError::OutputWriteFailed(cause) => {
                String::from_str("output write failed: ").concat(cause.as_str())
            },
        }
    }
}

impl IoError {
    /// Returns the line shown to the user.
    pub fn message(&self) -> (text: String)
        ensures
            text@ == self@.message(),
    {
        match self {
            IoError::ReadError(path) => String::from_str("read error: ").concat(path.as_str()),
            IoError::WriteError(path) => String::from_str("write error: ").concat(path.as_str()),
            IoError::PermissionDenied(path) => {
                String::from_str("permission denied: ").concat(path.as_str())
            },
        }
    }
}

impl MeltforgeError {
    /// Returns the category of the failure.
    pub fn category(&self) -> (category: Category)
        ensures
            category == self@.category(),
            category == match *self {
                MeltforgeError::Input(_) => Category::Input,
                MeltforgeError::Format(_) => Category::Format,
                MeltforgeError::Conversion(_) => Category::Conversion,
                MeltforgeError::Io(_) => Category::Io,
            },
    {
        match self {
            MeltforgeError::Input(_) => Category::Input,
            MeltforgeError::Format(_) => Category::Format,
            MeltforgeError::Conversion(_) => Category::Conversion,
            MeltforgeError::Io(_) => Category::Io,
        }
    }

    /// Returns the exit code of the failure: 2 for a wrong request, 3 for an
    /// unsupported format, 4 for a codec failure, 5 for a file-system refusal.
    pub fn exit_code(&self) -> (code: u8)
        ensures
            code == self@.category().code(),
            code == match *self {
                MeltforgeError::Input(_) => 2u8,
                MeltforgeError::Format(_) => 3u8,
                MeltforgeError::Conversion(_) => 4u8,
                MeltforgeError::Io(_) => 5u8,
            },
    {
        self.category().exit_code()
    }

    /// Returns the line shown to the user, which is that of the failure
    /// inside.
    pub fn message(&self) -> (text: String)
        ensures
            text@ == self@.message(),
    {
        match self {
            MeltforgeError::Input(e) => e.message(),
            MeltforgeError::Format(e) => e.message(),
            MeltforgeError::Conversion(e) => e.message(),
            MeltforgeError::Io(e) => e.message(),
        }
    }
}

/// Two categories with the same exit code are the same category.
pub proof fn exit_codes_tell_categories_apart(a: Category, b: Category)
    requires
        a.code() == b.code(),
    ensures
        a == b,
{
}

/// The message of a failure holds its detail, right after the words that
/// name the kind.
pub proof fn message_holds_detail(f: Failure)
    ensures
        f.message().len() >= f.kind.lead().len() + f.detail.len(),
        f.message().subrange(
            f.kind.lead().len() as int,
            (f.kind.lead().len() + f.detail.len()) as int,
        ) == f.detail,
{
}

} // verus!
