//! The conversion request.

use vstd::prelude::*;
use crate::format::FormatType;

verus! {

/// One conversion to perform: the file to read, the format to produce, and
/// where to write it if the caller chose a place.
#[derive(Debug, PartialEq, Eq)]
pub struct ConvertJob {
    /// The path of the input file.
    pub input: String,
    /// The path of the output file, if the caller chose one.
    pub output: Option<String>,
    /// The format to convert to.
    pub format_type: FormatType,
}

} // verus!
