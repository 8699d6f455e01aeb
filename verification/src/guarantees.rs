//! What holds of every conversion, whatever the host finds.
//!
//! The statements are over [`conversion_route`] and [`conversion_step`], the
//! terms in which [`crate::convert::convert`] states what it returns.

use vstd::prelude::*;
use crate::codec::{decodable, encoded};
use crate::convert::{
    conversion_route, conversion_step, decode_refused, derived_output, encode_refused,
    failed_transcoding_names_its_path, parent_plan, resolved_output,
    transcoded_bytes_come_from_the_encoder, Route,
};
use crate::error::{Category, ErrorKind, Failure, FormatError};
use crate::format::{
    convertible, format_of_extension, lowercase_of, other_first_letter_is_no_format, FormatType,
};
use crate::paths::{path_extension, path_parent, path_with_extension};
use crate::host::{Findings, PathKind, Plan, QuerySpec};
use crate::job::ConvertJob;
use crate::validate::{
    detected_format, failure_of, input_plan, output_dir, output_dir_plan, validation_plan,
};

verus! {

/// Whether the findings say that the input is a regular file that opens.
pub open spec fn input_is_readable_file(seen: Findings) -> bool {
    seen.input_kind == Some(PathKind::File) && seen.input_open matches Some(Ok(_))
}

/// Whether the findings say that the input has been read.
pub open spec fn source_is_read(seen: Findings) -> bool {
    seen.source matches Some(Ok(_))
}

/// Whether the findings say that the output has been stored.
pub open spec fn output_is_stored(seen: Findings) -> bool {
    seen.stored matches Some(Ok(_))
}

/// Whether `step` asks the host to change the file system.
pub open spec fn asks_to_write(step: Plan<Result<Seq<char>, Failure>>) -> bool {
    step matches Plan::Ask(query) && query.writes()
}

/// Whether `step` puts `query` to the host.
pub open spec fn asks(step: Plan<Result<Seq<char>, Failure>>, query: QuerySpec) -> bool {
    step == Plan::<Result<Seq<char>, Failure>>::Ask(query)
}

/// Whether `step` ends the conversion with success, and `path` as the path
/// written to.
pub open spec fn succeeds_with(step: Plan<Result<Seq<char>, Failure>>, path: Seq<char>) -> bool {
    step == Plan::<Result<Seq<char>, Failure>>::Done(Ok(path))
}

/// Whether `plan` says that all checks have passed.
pub open spec fn passed(plan: Plan<Result<(), Failure>>) -> bool {
    plan matches Plan::Done(Ok(_))
}

/// Whether `plan` says that a check has failed with `e`.
pub open spec fn refuses(plan: Plan<Result<(), Failure>>, e: Failure) -> bool {
    plan == Plan::<Result<(), Failure>>::Done(Err(e))
}

/// Whether `step` ends the conversion with a failure of the given kind and
/// detail.
pub open spec fn fails_with(
    step: Plan<Result<Seq<char>, Failure>>,
    kind: ErrorKind,
    detail: Seq<char>,
) -> bool {
    step == Plan::<Result<Seq<char>, Failure>>::Done(Err(Failure { kind, detail }))
}

/// A conversion from a supported format to the other one, without an output
/// path of the caller's, succeeds and returns the input path with the
/// extension of the target format in place of its own. This holds where the
/// input file opens, the parent of that path is there or could be created,
/// and the host has read the input and stored what the codec made of it.
pub proof fn derived_conversion_succeeds(
    cj: ConvertJob,
    seen: Findings,
    from: FormatType,
    step: Plan<Result<Seq<char>, Failure>>,
)
    requires
        cj.output is None,
        input_is_readable_file(seen),
        detected_format(cj.input@) matches Ok(format) && format == from,
        convertible(from, cj.format_type),
        passed(parent_plan(derived_output(cj.input@, cj.format_type), seen)),
        source_is_read(seen),
        output_is_stored(seen),
        conversion_step(cj, seen, step),
    ensures
        succeeds_with(
            step,
            crate::paths::path_with_extension(cj.input@, cj.format_type.canonical_extension()),
        ),
{
}

/// A request to convert a file to the format it already has never succeeds,
/// and never has the host write anything. Where the input is a regular file
/// that opens, the conversion fails with an unsupported output, which is of
/// the format category.
pub proof fn same_format_is_refused(
    cj: ConvertJob,
    seen: Findings,
    step: Plan<Result<Seq<char>, Failure>>,
)
    requires
        detected_format(cj.input@) matches Ok(format) && format == cj.format_type,
        conversion_step(cj, seen, step),
    ensures
        !(step matches Plan::Done(Ok(_))),
        !asks_to_write(step),
        input_is_readable_file(seen) ==> fails_with(
            step,
            ErrorKind::UnsupportedOutput,
            cj.format_type.label() + " → "@ + cj.format_type.label() + " not supported yet"@,
        ),
        ErrorKind::UnsupportedOutput.category() == Category::Format,
{
}

/// Where nothing is known yet, the first thing asked is what is at the input
/// path. Where that is no regular file, the conversion fails with a missing
/// input file, which is of the input category, whatever else is known: no
/// question that has the host write precedes this verdict.
pub proof fn missing_input_is_refused_first(
    cj: ConvertJob,
    seen: Findings,
    step: Plan<Result<Seq<char>, Failure>>,
)
    requires
        conversion_step(cj, seen, step),
    ensures
        seen.input_kind is None ==> asks(step, QuerySpec::InputKind(cj.input@)),
        seen.input_kind is Some && seen.input_kind != Some(PathKind::File) ==> fails_with(
            step,
            ErrorKind::MissingInputFile,
            cj.input@,
        ),
        ErrorKind::MissingInputFile.category() == Category::Input,
{
}

/// An input whose extension stands for no format, or that has none, never
/// reaches the codec: the host is not asked to read it, nothing is
/// transcoded, nothing is written, and the conversion never succeeds. Where
/// the input is a regular file that opens, the conversion fails with an
/// unsupported input, which is of the format category.
pub proof fn unsupported_input_never_reaches_codec(
    cj: ConvertJob,
    seen: Findings,
    step: Plan<Result<Seq<char>, Failure>>,
)
    requires
        detected_format(cj.input@) is Err,
        conversion_step(cj, seen, step),
    ensures
        !(conversion_route(cj, seen) is Transcode),
        !(step matches Plan::Ask(QuerySpec::ReadSource(_))),
        !asks_to_write(step),
        !(step matches Plan::Done(Ok(_))),
        input_is_readable_file(seen) ==> fails_with(
            step,
            ErrorKind::UnsupportedInput,
            detected_format(cj.input@)->Err_0.detail,
        ),
        ErrorKind::UnsupportedInput.category() == Category::Format,
{
}

/// Where the caller chose an output path and something is there already, the
/// conversion never succeeds, nothing is transcoded, and the host is never
/// asked to write. Where the input passes its checks, the conversion fails
/// with a write error that names the path, which is of the I/O category.
pub proof fn taken_output_is_never_overwritten(
    cj: ConvertJob,
    seen: Findings,
    step: Plan<Result<Seq<char>, Failure>>,
)
    requires
        cj.output is Some,
        seen.output_exists == Some(true),
        conversion_step(cj, seen, step),
    ensures
        !(conversion_route(cj, seen) is Transcode),
        !asks_to_write(step),
        !(step matches Plan::Done(Ok(_))),
        passed(input_plan(cj, seen)) ==> fails_with(step, ErrorKind::WriteError, cj.output->0@),
        ErrorKind::WriteError.category() == Category::Io,
{
}

/// Two detections of the format of one path agree.
pub proof fn detection_repeats(
    path: Seq<char>,
    first: Result<FormatType, FormatError>,
    second: Result<FormatType, FormatError>,
)
    requires
        failure_of(first) == detected_format(path),
        failure_of(second) == detected_format(path),
    ensures
        failure_of(first) == failure_of(second),
{
}

/// Nothing reaches the codec, and nothing is written below the output path,
/// unless validation has passed in full: the host is asked to read the
/// input, to create the parent of the output or to store the output, and the
/// input is transcoded, only then. The probe of validation itself is made
/// only when the input has passed its checks and the output path is free.
pub proof fn codec_follows_validation(
    cj: ConvertJob,
    seen: Findings,
    step: Plan<Result<Seq<char>, Failure>>,
)
    requires
        conversion_step(cj, seen, step),
    ensures
        conversion_route(cj, seen) is Transcode ==> passed(validation_plan(cj, seen)),
        step matches Plan::Ask(query) && (query is ReadSource || query is CreateParent
            || query is Store) ==> passed(validation_plan(cj, seen)),
        step matches Plan::Ask(QuerySpec::ProbeWrite(_)) ==> passed(input_plan(cj, seen))
            && cj.output is Some && seen.output_exists == Some(false) && seen.output_dir_exists
            == Some(true),
        step matches Plan::Done(Ok(_)) ==> passed(validation_plan(cj, seen)),
{
}

/// Where the caller chose an output path, the input is transcoded only after
/// the host has found nothing at that path.
pub proof fn chosen_output_is_free_before_codec(cj: ConvertJob, seen: Findings)
    requires
        cj.output is Some,
        conversion_route(cj, seen) is Transcode,
    ensures
        seen.output_exists == Some(false),
{
}

/// The path written to is the one the caller chose, if there is one, and
/// the one that follows from the input path otherwise: whether the step hands
/// bytes to the host to store, or reports success.
pub proof fn output_has_one_source(
    cj: ConvertJob,
    seen: Findings,
    step: Plan<Result<Seq<char>, Failure>>,
)
    requires
        conversion_step(cj, seen, step),
    ensures
        step matches Plan::Ask(QuerySpec::Store(path, _)) ==> path == resolved_output(cj),
        step matches Plan::Done(Ok(path)) ==> path == resolved_output(cj),
        cj.output matches Some(output) ==> resolved_output(cj) == output@,
        cj.output is None ==> resolved_output(cj) == derived_output(cj.input@, cj.format_type),
{
}

/// The host is asked only what it has not answered yet.
pub proof fn asks_only_what_is_unknown(
    cj: ConvertJob,
    seen: Findings,
    step: Plan<Result<Seq<char>, Failure>>,
)
    requires
        conversion_step(cj, seen, step),
    ensures
        step matches Plan::Ask(query) ==> seen.lacks(query),
        validation_plan(cj, seen) matches Plan::Ask(query) ==> seen.lacks(query),
{
}

/// A verdict is final: once validation or the conversion has ended, no
/// further finding changes how it ended.
pub proof fn verdicts_are_final(cj: ConvertJob, seen: Findings, later: Findings)
    requires
        later.extends(seen),
    ensures
        validation_plan(cj, seen) matches Plan::Done(verdict) ==> validation_plan(cj, later)
            == Plan::Done(verdict),
        conversion_route(cj, seen) matches Route::Done(outcome) ==> conversion_route(cj, later)
            == Route::Done(outcome),
{
}

/// Bytes that do not decode as the format of the input are never turned into
/// an output: the conversion ends with an execution failure that names the
/// input, which is of the conversion category, and the host is not asked to
/// store anything.
pub proof fn undecodable_input_is_never_stored(
    cj: ConvertJob,
    seen: Findings,
    step: Plan<Result<Seq<char>, Failure>>,
)
    requires
        conversion_route(cj, seen) matches Route::Transcode { source, from, .. } && !decodable(
            source,
            from,
        ),
        conversion_step(cj, seen, step),
    ensures
        step matches Plan::Done(Err(e)) && decode_refused(e, cj.input@),
        !asks_to_write(step),
        ErrorKind::ExecutionFailed.category() == Category::Conversion,
{
    match step {
        Plan::Done(Err(e)) => {
            let route = conversion_route(cj, seen);
            failed_transcoding_names_its_path(
                e,
                cj.input@,
                route->source,
                route->from,
                route->output,
                route->to,
            );
        },
        Plan::Ask(QuerySpec::Store(path, bytes)) => {
            let route = conversion_route(cj, seen);
            transcoded_bytes_come_from_the_encoder(
                bytes,
                cj.input@,
                route->source,
                route->from,
                route->output,
                route->to,
            );
        },
        _ => {},
    }
}

/// Bytes that decode as the format of the input are turned into an output
/// unless the encoder fails: the host is handed what the encoder makes of
/// some picture in the target format, to be stored at the resolved path, or
/// the conversion ends with an output write failure that names that path.
/// Where the encoder takes every picture, the bytes are handed over.
pub proof fn decodable_input_is_stored_as_encoded(
    cj: ConvertJob,
    seen: Findings,
    step: Plan<Result<Seq<char>, Failure>>,
)
    requires
        conversion_route(cj, seen) matches Route::Transcode { source, from, .. } && decodable(
            source,
            from,
        ),
        conversion_step(cj, seen, step),
    ensures
        step matches Plan::Ask(QuerySpec::Store(path, bytes)) ==> path == resolved_output(cj)
            && exists|picture: image::DynamicImage| #[trigger]
            encoded(picture, cj.format_type) == Ok::<Seq<u8>, Seq<char>>(bytes),
        step matches Plan::Done(Err(e)) ==> encode_refused(e, resolved_output(cj)),
        step is Ask || step matches Plan::Done(Err(_)),
        (forall|picture: image::DynamicImage| #[trigger]
            encoded(picture, cj.format_type) is Ok) ==> step matches Plan::Ask(
            QuerySpec::Store(_, _),
        ),
{
    let route = conversion_route(cj, seen);
    match step {
        Plan::Done(Err(e)) => {
            failed_transcoding_names_its_path(
                e,
                cj.input@,
                route->source,
                route->from,
                route->output,
                route->to,
            );
            let decoded = choose|decoded: Result<image::DynamicImage, image::ImageError>|
                (decoded is Ok <==> decodable(route->source, route->from)) && Err::<
                    Seq<u8>,
                    Failure,
                >(e) == #[trigger] crate::convert::after_decode(
                    decoded,
                    cj.input@,
                    route->output,
                    route->to,
                );
            assert(encoded(decoded->Ok_0, cj.format_type) is Err);
        },
        Plan::Ask(QuerySpec::Store(path, bytes)) => {
            transcoded_bytes_come_from_the_encoder(
                bytes,
                cj.input@,
                route->source,
                route->from,
                route->output,
                route->to,
            );
        },
        _ => {},
    }
}

/// Once every question has been answered, nothing more is asked: the
/// conversion has ended. With [`verdicts_are_final`] this makes the outcome
/// of a conversion a matter of what the file system holds, not of how far the
/// host had got when it was decided.
pub proof fn complete_findings_end_the_conversion(cj: ConvertJob, seen: Findings)
    requires
        seen.is_complete(),
    ensures
        conversion_route(cj, seen) is Done,
        validation_plan(cj, seen) is Done,
{
}

/// A failure of validation ends the conversion as it is: the same kind, the
/// same detail.
pub proof fn validation_failure_is_passed_on(
    cj: ConvertJob,
    seen: Findings,
    step: Plan<Result<Seq<char>, Failure>>,
    e: Failure,
)
    requires
        refuses(validation_plan(cj, seen), e),
        conversion_step(cj, seen, step),
    ensures
        fails_with(step, e.kind, e.detail),
{
}

/// Every failure that ends a conversion is of one of the kinds that the
/// pipeline reports, and names the path, the extension, the pair of formats
/// or the cause at fault.
pub proof fn failures_are_of_the_pipeline(
    cj: ConvertJob,
    seen: Findings,
    step: Plan<Result<Seq<char>, Failure>>,
)
    requires
        conversion_step(cj, seen, step),
    ensures
        step matches Plan::Done(Err(e)) ==> {
            ||| e == Failure { kind: ErrorKind::MissingInputFile, detail: cj.input@ }
            ||| e == Failure { kind: ErrorKind::PermissionDenied, detail: cj.input@ }
            ||| e == Failure { kind: ErrorKind::ReadError, detail: cj.input@ }
            ||| detected_format(cj.input@) matches Err(unsupported) && e == unsupported
            ||| e.kind == ErrorKind::UnsupportedOutput
            ||| cj.output matches Some(output) && refuses(output_dir_plan(output@, seen), e)
            ||| refuses(parent_plan(resolved_output(cj), seen), e)
            ||| decode_refused(e, cj.input@)
            ||| encode_refused(e, resolved_output(cj))
        },
{
    crate::convert::begins_with_its_lead("open "@ + cj.input@ + ": "@, seen.source->0->Err_0@);
    crate::convert::begins_with_its_lead(
        "save "@ + resolved_output(cj) + ": "@,
        seen.stored->0->Err_0@,
    );
    if conversion_route(cj, seen) is Transcode {
        if let Plan::Done(Err(e)) = step {
            let route = conversion_route(cj, seen);
            failed_transcoding_names_its_path(
                e,
                cj.input@,
                route->source,
                route->from,
                route->output,
                route->to,
            );
        }
    }
}

/// A bare file name lies in the current directory: where the parent of an
/// output path is the empty path, its directory is `.`. Where nothing is at
/// such a path, and `.` exists and takes the probe, the path passes its
/// check.
pub proof fn bare_file_name_lies_in_the_current_directory(output: Seq<char>, seen: Findings)
    requires
        path_parent(output) matches Some(dir) && dir.len() == 0,
    ensures
        output_dir(output) == "."@,
        seen.output_exists == Some(false) && seen.output_dir_exists == Some(true)
            && seen.probe_created == Some(true) ==> passed(output_dir_plan(output, seen)),
        passed(parent_plan(output, seen)),
{
}

/// What the extension of the input decides, once the standard library has
/// said what it is: where the extension, in lower case, stands for no
/// format, a readable input fails validation and conversion alike with an
/// unsupported input that names the extension in lower case. The exit code
/// of that failure is 3.
pub proof fn unknown_extension_is_named(
    cj: ConvertJob,
    seen: Findings,
    step: Plan<Result<Seq<char>, Failure>>,
    ext: Seq<char>,
)
    requires
        path_extension(cj.input@) == Some(ext),
        format_of_extension(lowercase_of(ext)) is None,
        input_is_readable_file(seen),
        conversion_step(cj, seen, step),
    ensures
        refuses(
            validation_plan(cj, seen),
            Failure { kind: ErrorKind::UnsupportedInput, detail: lowercase_of(ext) },
        ),
        fails_with(step, ErrorKind::UnsupportedInput, lowercase_of(ext)),
        ErrorKind::UnsupportedInput.category().code() == 3,
{
}

/// Where the extension of the input, in lower case, stands for the very
/// format that is asked for, a readable input fails validation and conversion
/// alike with an unsupported output that names the format twice, around an
/// arrow. The exit code of that failure is 3.
pub proof fn same_format_names_both(
    cj: ConvertJob,
    seen: Findings,
    step: Plan<Result<Seq<char>, Failure>>,
    ext: Seq<char>,
)
    requires
        path_extension(cj.input@) == Some(ext),
        format_of_extension(lowercase_of(ext)) == Some(cj.format_type),
        input_is_readable_file(seen),
        conversion_step(cj, seen, step),
    ensures
        refuses(
            validation_plan(cj, seen),
            Failure {
                kind: ErrorKind::UnsupportedOutput,
                detail: cj.format_type.label() + " → "@ + cj.format_type.label()
                    + " not supported yet"@,
            },
        ),
        fails_with(
            step,
            ErrorKind::UnsupportedOutput,
            cj.format_type.label() + " → "@ + cj.format_type.label() + " not supported yet"@,
        ),
        ErrorKind::UnsupportedOutput.category().code() == 3,
{
}

/// Where the extension of the input, in lower case, stands for the other
/// format, and the caller chose an output path at which the host found
/// something, a readable input fails validation and conversion alike with a
/// write error that names the output path. The exit code of that failure is
/// 5.
pub proof fn taken_output_is_named(
    cj: ConvertJob,
    seen: Findings,
    step: Plan<Result<Seq<char>, Failure>>,
    ext: Seq<char>,
    from: FormatType,
)
    requires
        path_extension(cj.input@) == Some(ext),
        format_of_extension(lowercase_of(ext)) == Some(from),
        convertible(from, cj.format_type),
        cj.output is Some,
        input_is_readable_file(seen),
        seen.output_exists == Some(true),
        conversion_step(cj, seen, step),
    ensures
        refuses(
            validation_plan(cj, seen),
            Failure { kind: ErrorKind::WriteError, detail: cj.output->0@ },
        ),
        fails_with(step, ErrorKind::WriteError, cj.output->0@),
        ErrorKind::WriteError.category().code() == 5,
{
}

/// Where the extension of the input, in lower case, stands for the other
/// format and the caller chose no output path, a readable input goes the
/// whole way, given that the parent of the derived path is there or was
/// created: once read, it is transcoded; once stored, the conversion returns
/// what `set_extension` makes of the input path and the extension of the
/// target format.
pub proof fn derived_conversion_by_extension(
    cj: ConvertJob,
    seen: Findings,
    step: Plan<Result<Seq<char>, Failure>>,
    ext: Seq<char>,
    from: FormatType,
)
    requires
        path_extension(cj.input@) == Some(ext),
        format_of_extension(lowercase_of(ext)) == Some(from),
        convertible(from, cj.format_type),
        cj.output is None,
        input_is_readable_file(seen),
        passed(parent_plan(derived_output(cj.input@, cj.format_type), seen)),
        conversion_step(cj, seen, step),
    ensures
        passed(validation_plan(cj, seen)),
        seen.source is None ==> asks(step, QuerySpec::ReadSource(cj.input@)),
        source_is_read(seen) && seen.stored is None ==> conversion_route(cj, seen)
            == (Route::Transcode {
            source: seen.source->0->Ok_0@,
            from,
            to: cj.format_type,
            output: path_with_extension(cj.input@, cj.format_type.canonical_extension()),
        }),
        source_is_read(seen) && output_is_stored(seen) ==> succeeds_with(
            step,
            path_with_extension(cj.input@, cj.format_type.canonical_extension()),
        ),
{
}

/// An instance of [`same_format_names_both`]: `photo.png`, asked to become a
/// PNG, is refused with `PNG → PNG not supported yet` and exit code 3, given
/// what the standard library makes of the path.
pub proof fn photo_png_does_not_become_png(
    cj: ConvertJob,
    seen: Findings,
    step: Plan<Result<Seq<char>, Failure>>,
)
    requires
        cj.input@ == "photo.png"@,
        cj.format_type == FormatType::PNG,
        path_extension("photo.png"@) == Some("png"@),
        lowercase_of("png"@) == "png"@,
        input_is_readable_file(seen),
        conversion_step(cj, seen, step),
    ensures
        fails_with(step, ErrorKind::UnsupportedOutput, "PNG → PNG not supported yet"@),
        ErrorKind::UnsupportedOutput.category() == Category::Format,
        Category::Format.code() == 3,
{
    same_format_names_both(cj, seen, step, "png"@);
    reveal_strlit("PNG");
    reveal_strlit(" → ");
    reveal_strlit(" not supported yet");
    reveal_strlit("PNG → PNG not supported yet");
    assert("PNG"@ + " → "@ + "PNG"@ + " not supported yet"@ =~= "PNG → PNG not supported yet"@);
}

/// An instance of [`derived_conversion_by_extension`]: `photo.png`, asked to
/// become a JPEG without an output path of the caller's, is read, transcoded
/// for `photo.jpg` and, once stored, returned as `photo.jpg`, given what the
/// standard library makes of the paths.
pub proof fn photo_png_becomes_photo_jpg(
    cj: ConvertJob,
    seen: Findings,
    step: Plan<Result<Seq<char>, Failure>>,
)
    requires
        cj.input@ == "photo.png"@,
        cj.output is None,
        cj.format_type == FormatType::JPEG,
        path_extension("photo.png"@) == Some("png"@),
        lowercase_of("png"@) == "png"@,
        path_with_extension("photo.png"@, "jpg"@) == "photo.jpg"@,
        path_parent("photo.jpg"@) == Some(Seq::<char>::empty()),
        input_is_readable_file(seen),
        conversion_step(cj, seen, step),
    ensures
        seen.source is None ==> asks(step, QuerySpec::ReadSource("photo.png"@)),
        source_is_read(seen) && seen.stored is None ==> conversion_route(cj, seen)
            == (Route::Transcode {
            source: seen.source->0->Ok_0@,
            from: FormatType::PNG,
            to: FormatType::JPEG,
            output: "photo.jpg"@,
        }),
        source_is_read(seen) && output_is_stored(seen) ==> succeeds_with(step, "photo.jpg"@),
{
    derived_conversion_by_extension(cj, seen, step, "png"@, FormatType::PNG);
}

/// An instance of [`unknown_extension_is_named`]: `doc.txt` is refused with
/// an unsupported input that names `txt`, and exit code 3, given what the
/// standard library makes of the path.
pub proof fn doc_txt_is_no_picture(
    cj: ConvertJob,
    seen: Findings,
    step: Plan<Result<Seq<char>, Failure>>,
)
    requires
        cj.input@ == "doc.txt"@,
        path_extension("doc.txt"@) == Some("txt"@),
        lowercase_of("txt"@) == "txt"@,
        input_is_readable_file(seen),
        conversion_step(cj, seen, step),
    ensures
        refuses(
            validation_plan(cj, seen),
            Failure { kind: ErrorKind::UnsupportedInput, detail: "txt"@ },
        ),
        fails_with(step, ErrorKind::UnsupportedInput, "txt"@),
        ErrorKind::UnsupportedInput.category() == Category::Format,
        Category::Format.code() == 3,
        !asks_to_write(step),
{
    reveal_strlit("txt");
    other_first_letter_is_no_format("txt"@);
    unknown_extension_is_named(cj, seen, step, "txt"@);
}

/// An instance of [`taken_output_is_named`]: `photo.png`, asked to become a
/// JPEG at `existing.jpg`, where something is already, is refused with a
/// write error that names `existing.jpg`, and exit code 5, given what the
/// standard library makes of the path. Nothing is written.
pub proof fn existing_jpg_is_not_overwritten(
    cj: ConvertJob,
    seen: Findings,
    step: Plan<Result<Seq<char>, Failure>>,
)
    requires
        cj.input@ == "photo.png"@,
        cj.output matches Some(output) && output@ == "existing.jpg"@,
        cj.format_type == FormatType::JPEG,
        path_extension("photo.png"@) == Some("png"@),
        lowercase_of("png"@) == "png"@,
        input_is_readable_file(seen),
        seen.output_exists == Some(true),
        conversion_step(cj, seen, step),
    ensures
        fails_with(step, ErrorKind::WriteError, "existing.jpg"@),
        ErrorKind::WriteError.category() == Category::Io,
        Category::Io.code() == 5,
        !asks_to_write(step),
{
    taken_output_is_named(cj, seen, step, "png"@, FormatType::PNG);
}

} // verus!
