//! The checks that a conversion request has to pass, in their fixed order.
//!
//! The first check that fails decides; later checks are not made, and their
//! questions are never put to the host.

use vstd::prelude::*;
use crate::error::{ErrorKind, Failure, FormatError, InputError, IoError, MeltforgeError};
use crate::format::{
    convertible, format_of_extension, is_convertible_pair, lowercase, lowercase_of, FormatType,
};
use crate::host::{Findings, IoFailure, PathKind, Plan, Query, QuerySpec, Step};
use crate::job::ConvertJob;
use crate::paths::{extension, join, parent, path_extension, path_joined, path_parent};

verus! {

/// What stands for the extension in the failure of a path that has none.
pub const NO_EXTENSION: &'static str = "<no extension>";

/// The name of the file that probes whether a directory can be written to.
pub const PROBE_NAME: &'static str = ".meltforge_write_test";

/// The mathematical value of a result whose error is one of the library's.
pub open spec fn failure_of<T, E: View<V = Failure>>(r: Result<T, E>) -> Result<T, Failure> {
    match r {
        Ok(value) => Ok(value),
        Err(e) => Err(e@),
    }
}

/// The format of an input whose extension, in lower case, is `lowered`;
/// `None` stands for a path without extension. An extension that stands for
/// no format is named in the failure.
pub open spec fn classified(lowered: Option<Seq<char>>) -> Result<FormatType, Failure> {
    match lowered {
        None => Err(Failure { kind: ErrorKind::UnsupportedInput, detail: NO_EXTENSION@ }),
        Some(ext) => match format_of_extension(ext) {
            Some(format) => Ok(format),
            None => Err(Failure { kind: ErrorKind::UnsupportedInput, detail: ext }),
        },
    }
}

/// The format of the file at `path`, told from its extension without regard
/// to case.
pub open spec fn detected_format(path: Seq<char>) -> Result<FormatType, Failure> {
    classified(
        match path_extension(path) {
            Some(ext) => Some(lowercase_of(ext)),
            None => None,
        },
    )
}

/// Whether `input` may be converted to `output`; if not, the failure names
/// both.
pub open spec fn compatibility(input: FormatType, output: FormatType) -> Result<(), Failure> {
    if convertible(input, output) {
        Ok(())
    } else {
        Err(
            Failure {
                kind: ErrorKind::UnsupportedOutput,
                detail: input.label() + " → "@ + output.label() + " not supported yet"@,
            },
        )
    }
}

/// The verdict on an input path at which the host found `kind`.
pub open spec fn path_check(path: Seq<char>, kind: PathKind) -> Result<(), Failure> {
    if kind == PathKind::File {
        Ok(())
    } else {
        Err(Failure { kind: ErrorKind::MissingInputFile, detail: path })
    }
}

/// The verdict on an input file that the host tried to open, with the
/// outcome `opened`.
pub open spec fn readable_check(path: Seq<char>, opened: Result<(), IoFailure>) -> Result<
    (),
    Failure,
> {
    match opened {
        Ok(()) => Ok(()),
        Err(IoFailure::PermissionDenied) => Err(
            Failure { kind: ErrorKind::PermissionDenied, detail: path },
        ),
        Err(IoFailure::Other) => Err(Failure { kind: ErrorKind::ReadError, detail: path }),
    }
}

/// The directory that an output path lies in: its parent, or `.` if it has
/// none or if its parent is the empty path, as that of a bare file name is.
pub open spec fn output_dir(output: Seq<char>) -> Seq<char> {
    match path_parent(output) {
        Some(dir) => if dir.len() == 0 {
            "."@
        } else {
            dir
        },
        None => "."@,
    }
}

/// The probe file that shows whether `dir` can be written to.
pub open spec fn probe_file(dir: Seq<char>) -> Seq<char> {
    path_joined(dir, PROBE_NAME@)
}

/// The check of an output path that the caller chose: nothing may be there
/// yet, its directory must exist, and a probe file must be creatable in it.
pub open spec fn output_dir_plan(output: Seq<char>, seen: Findings) -> Plan<Result<(), Failure>> {
    match seen.output_exists {
        None => Plan::Ask(QuerySpec::OutputExists(output)),
        Some(true) => Plan::Done(Err(Failure { kind: ErrorKind::WriteError, detail: output })),
        Some(false) => match seen.output_dir_exists {
            None => Plan::Ask(QuerySpec::OutputDirExists(output_dir(output))),
            Some(false) => Plan::Done(
                Err(Failure { kind: ErrorKind::WriteError, detail: output }),
            ),
            Some(true) => match seen.probe_created {
                None => Plan::Ask(QuerySpec::ProbeWrite(probe_file(output_dir(output)))),
                Some(true) => Plan::Done(Ok(())),
                Some(false) => Plan::Done(
                    Err(Failure { kind: ErrorKind::PermissionDenied, detail: output_dir(output) }),
                ),
            },
        },
    }
}

/// The checks on the input alone, as far as the findings reach: the path
/// names a regular file, the file opens, its extension stands for a format,
/// and that format converts to the one asked for.
pub open spec fn input_plan(cj: ConvertJob, seen: Findings) -> Plan<Result<(), Failure>> {
    match seen.input_kind {
        None => Plan::Ask(QuerySpec::InputKind(cj.input@)),
        Some(kind) => match path_check(cj.input@, kind) {
            Err(e) => Plan::Done(Err(e)),
            Ok(()) => match seen.input_open {
                None => Plan::Ask(QuerySpec::InputOpens(cj.input@)),
                Some(opened) => match readable_check(cj.input@, opened) {
                    Err(e) => Plan::Done(Err(e)),
                    Ok(()) => match detected_format(cj.input@) {
                        Err(e) => Plan::Done(Err(e)),
                        Ok(format) => Plan::Done(compatibility(format, cj.format_type)),
                    },
                },
            },
        },
    }
}

/// The whole validation: the checks on the input, then, if the caller chose
/// an output path, the check of that path.
pub open spec fn validation_plan(cj: ConvertJob, seen: Findings) -> Plan<Result<(), Failure>> {
    match input_plan(cj, seen) {
        Plan::Done(Ok(())) => match cj.output {
            None => Plan::Done(Ok(())),
            Some(output) => output_dir_plan(output@, seen),
        },
        other => other,
    }
}

/// Checks that the host found a regular file at `path`.
pub fn validate_path(path: &str, kind: PathKind) -> (r: Result<(), InputError>)
    ensures
        failure_of(r) == path_check(path@, kind),
{
    match kind {
        PathKind::File => Ok(()),
        _ => Err(InputError::MissingInputFile(path.to_owned())),
    }
}

/// Checks that the host could open the file at `path` for reading. A refusal
/// for want of permission is told apart from any other.
pub fn ensure_readable(path: &str, opened: Result<(), IoFailure>) -> (r: Result<(), IoError>)
    ensures
        failure_of(r) == readable_check(path@, opened),
{
    match opened {
        Ok(()) => Ok(()),
        Err(IoFailure::PermissionDenied) => Err(IoError::PermissionDenied(path.to_owned())),
        Err(IoFailure::Other) => Err(IoError::ReadError(path.to_owned())),
    }
}

/// Tells the format of an input from its extension, given in lower case;
/// `None` stands for a path without extension.
pub fn classify_extension(lowered: Option<String>) -> (r: Result<FormatType, FormatError>)
    ensures
        failure_of(r) == classified(crate::paths::text_of(lowered)),
{
    match lowered {
        None => Err(FormatError::UnsupportedInput(NO_EXTENSION.to_owned())),
        Some(ext) => match FormatType::from_extension(ext.as_str()) {
            Some(format) => Ok(format),
            None => Err(FormatError::UnsupportedInput(ext)),
        },
    }
}

/// Tells the format of the file at `path` from its extension, without regard
/// to case: `png` is PNG, `jpg` and `jpeg` are JPEG. Any other extension, or
/// none, is an unsupported input.
pub fn detect_input_format(path: &str) -> (r: Result<FormatType, FormatError>)
    ensures
        failure_of(r) == detected_format(path@),
{
    let lowered = match extension(path) {
        Some(ext) => Some(lowercase(ext.as_str())),
        None => None,
    };
    classify_extension(lowered)
}

/// Tells the format of the input; see [`detect_input_format`].
pub fn validate_input_format(path: &str) -> (r: Result<FormatType, FormatError>)
    ensures
        failure_of(r) == detected_format(path@),
{
    detect_input_format(path)
}

/// Checks that `input` may be converted to `output`: PNG to JPEG, or JPEG to
/// PNG. A format is not converted to itself.
pub fn validate_compatibility(input: FormatType, output: FormatType) -> (r: Result<
    (),
    FormatError,
>)
    ensures
        failure_of(r) == compatibility(input, output),
{
    if is_convertible_pair(input, output) {
        Ok(())
    } else {
        let detail = String::from_str(input.name()).concat(" → ").concat(output.name()).concat(
            " not supported yet",
        );
        Err(FormatError::UnsupportedOutput(detail))
    }
}

/// Checks an output path that the caller chose, as far as the findings
/// reach: nothing may be at the path, its directory must exist, and a probe
/// file must be creatable there.
///
/// The directory of a bare file name is the current directory, `.`.
///
/// A path that is taken and a directory that is missing are both reported
/// as a write error on the output path. A probe that fails is reported as
/// permission denied on the directory, whatever made it fail.
///
/// The probe is a file that the host creates in the directory and removes
/// again: validation leaves this brief trace on the file system, and no
/// other.
pub fn validate_output_dir(output_path: &str, seen: &Findings) -> (r: Step<Result<(), IoError>>)
    ensures
        r@ == output_dir_plan(output_path@, *seen),
{
    match seen.output_exists {
        None => { return Step::Ask(Query::OutputExists(output_path.to_owned())); },
        Some(true) => { return Step::Done(Err(IoError::WriteError(output_path.to_owned()))); },
        Some(false) => {},
    }
    let dir = match parent(output_path) {
        Some(dir) => if dir.as_str().is_empty() {
            ".".to_owned()
        } else {
            dir
        },
        None => ".".to_owned(),
    };
    match seen.output_dir_exists {
        None => { return Step::Ask(Query::OutputDirExists(dir)); },
        Some(false) => { return Step::Done(Err(IoError::WriteError(output_path.to_owned()))); },
        Some(true) => {},
    }
    match seen.probe_created {
        None => Step::Ask(Query::ProbeWrite(join(dir.as_str(), PROBE_NAME))),
        Some(true) => Step::Done(Ok(())),
        Some(false) => Step::Done(Err(IoError::PermissionDenied(dir))),
    }
}

/// Validates a conversion request, as far as the findings reach. There are
/// five checks, made one after the other; the first failure is returned and
/// nothing further is asked:
///
/// 1. the input path names a regular file;
/// 2. the file opens for reading;
/// 3. its extension stands for a supported format;
/// 4. that format converts to the one asked for;
/// 5. if the caller chose an output path: see [`validate_output_dir`].
pub fn validate_job(cj: &ConvertJob, seen: &Findings) -> (r: Step<Result<(), MeltforgeError>>)
    ensures
        r@ == validation_plan(*cj, *seen),
{
    match seen.input_kind {
        None => { return Step::Ask(Query::InputKind(cj.input.clone())); },
        Some(kind) => match validate_path(cj.input.as_str(), kind) {
            Err(e) => { return Step::Done(Err(MeltforgeError::Input(e))); },
            Ok(()) => {},
        },
    }
    match seen.input_open {
        None => { return Step::Ask(Query::InputOpens(cj.input.clone())); },
        Some(opened) => match ensure_readable(cj.input.as_str(), opened) {
            Err(e) => { return Step::Done(Err(MeltforgeError::Io(e))); },
            Ok(()) => {},
        },
    }
    let input_fmt = match validate_input_format(cj.input.as_str()) {
        Err(e) => { return Step::Done(Err(MeltforgeError::Format(e))); },
        Ok(format) => format,
    };
    match validate_compatibility(input_fmt, cj.format_type) {
        Err(e) => { return Step::Done(Err(MeltforgeError::Format(e))); },
        Ok(()) => {},
    }
    match &cj.output {
        None => Step::Done(Ok(())),
        Some(output) => match validate_output_dir(output.as_str(), seen) {
            Step::Ask(query) => Step::Ask(query),
            Step::Done(Ok(())) => Step::Done(Ok(())),
            Step::Done(Err(e)) => Step::Done(Err(MeltforgeError::Io(e))),
        },
    }
}

} // verus!
