//! The supported image formats and how they are told from file extensions.

use vstd::prelude::*;

verus! {

/// One of the two supported image encodings.
#[allow(clippy::upper_case_acronyms)]
#[derive(Clone, Copy, Debug, PartialEq, Eq, Hash, Structural)]
pub enum FormatType {
    PNG,
    JPEG,
}

/// What `str::to_lowercase` makes of `text`.
pub uninterp spec fn lowercase_of(text: Seq<char>) -> Seq<char>;

/// Calls `str::to_lowercase` on `text`, which folds case as Unicode defines
/// it. The contract claims only that the result is the one named
/// [`lowercase_of`].
#[verifier::external_body]
pub(crate) fn lowercase(text: &str) -> (lower: String)
    ensures
        lower@ == lowercase_of(text@),
{
    text.to_lowercase()
}

/// The format that a lower-case extension stands for, if any.
pub open spec fn format_of_extension(ext: Seq<char>) -> Option<FormatType> {
    if ext == "png"@ {
        Some(FormatType::PNG)
    } else if ext == "jpg"@ || ext == "jpeg"@ {
        Some(FormatType::JPEG)
    } else {
        None
    }
}

/// The format that a target-format token stands for, whatever its case.
pub open spec fn format_of_token(token: Seq<char>) -> Option<FormatType> {
    format_of_extension(lowercase_of(token))
}

/// The supported conversions: PNG to JPEG and JPEG to PNG, input first.
pub open spec fn convertible(input: FormatType, output: FormatType) -> bool {
    ||| (input == FormatType::PNG && output == FormatType::JPEG)
    ||| (input == FormatType::JPEG && output == FormatType::PNG)
}

impl FormatType {
    /// The extension that files of this format are written with.
    pub open spec fn canonical_extension(self) -> Seq<char> {
        match self {
            FormatType::PNG => "png"@,
            FormatType::JPEG => "jpg"@,
        }
    }

    /// The format's name as it appears in messages.
    pub open spec fn label(self) -> Seq<char> {
        match self {
            FormatType::PNG => "PNG"@,
            FormatType::JPEG => "JPEG"@,
        }
    }

    /// Returns the extension that files of this format are written with.
    pub fn extension(self) -> (ext: &'static str)
        ensures
            ext@ == self.canonical_extension(),
    {
        match self {
            FormatType::PNG => "png",
            FormatType::JPEG => "jpg",
        }
    }

    /// Returns the format's name as it appears in messages.
    pub fn name(self) -> (name: &'static str)
        ensures
            name@ == self.label(),
    {
        match self {
            FormatType::PNG => "PNG",
            FormatType::JPEG => "JPEG",
        }
    }

    /// Reads a lower-case extension: `png` is PNG, `jpg` and `jpeg` are JPEG,
    /// anything else is no format.
    pub fn from_extension(ext: &str) -> (format: Option<FormatType>)
        ensures
            format == format_of_extension(ext@),
    {
        let ext = ext.to_owned();
        if ext == "png".to_owned() {
            Some(FormatType::PNG)
        } else if ext == "jpg".to_owned() || ext == "jpeg".to_owned() {
            Some(FormatType::JPEG)
        } else {
            None
        }
    }

    /// Reads a target-format token without regard to case: `jpg` and `jpeg`
    /// are JPEG, `png` is PNG. Any other token is no format.
    pub fn from_token(token: &str) -> (format: Option<FormatType>)
        ensures
            format == format_of_token(token@),
    {
        let lower = lowercase(token);
        FormatType::from_extension(lower.as_str())
    }
}

/// Tells whether `input` can be converted to `output`.
pub fn is_convertible_pair(input: FormatType, output: FormatType) -> (yes: bool)
    ensures
        yes == convertible(input, output),
{
    match (input, output) {
        (FormatType::PNG, FormatType::JPEG) => true,
        (FormatType::JPEG, FormatType::PNG) => true,
        _ => false,
    }
}

/// No format converts to itself, and each converts to the other: a pair is
/// supported exactly when its two formats differ.
pub proof fn convertible_means_different(input: FormatType, output: FormatType)
    ensures
        convertible(input, output) <==> input != output,
{
}

/// An extension that begins with neither `p` nor `j` stands for no format.
pub proof fn other_first_letter_is_no_format(ext: Seq<char>)
    requires
        ext.len() > 0,
        ext[0] != 'p',
        ext[0] != 'j',
    ensures
        format_of_extension(ext) is None,
{
    reveal_strlit("png");
    reveal_strlit("jpg");
    reveal_strlit("jpeg");
}

/// The extension that files of a format are written with stands for that
/// format.
pub proof fn canonical_extension_reads_back(format: FormatType)
    ensures
        format_of_extension(format.canonical_extension()) == Some(format),
{
    reveal_strlit("png");
    reveal_strlit("jpg");
    assert("png"@[0] != "jpg"@[0]);
}

} // verus!
