//! The conversion itself: validate, settle the output path, make sure its
//! directory is there, read, transcode, write.

use vstd::prelude::*;
use crate::codec::{decodable, decode, describe, encode, encoded, failure_text};
use crate::error::{ConversionError, ErrorKind, Failure, IoError, MeltforgeError};
use crate::format::FormatType;
use crate::host::{Findings, IoFailure, Plan, Query, QuerySpec, Step};
use crate::job::ConvertJob;
use crate::paths::{parent, path_parent, path_with_extension, with_extension};
use crate::validate::{
    compatibility, detect_input_format, detected_format, validate_compatibility, validate_job,
    validation_plan,
};

verus! {

/// The output path that follows from the input path: the same path with the
/// extension of the target format in place of its own.
pub open spec fn derived_output(input: Seq<char>, to: FormatType) -> Seq<char> {
    path_with_extension(input, to.canonical_extension())
}

/// The path that the conversion writes to: the one the caller chose, or else
/// the one that follows from the input path.
pub open spec fn resolved_output(cj: ConvertJob) -> Seq<char> {
    match cj.output {
        Some(output) => output@,
        None => derived_output(cj.input@, cj.format_type),
    }
}

/// The failure that stands for a refused write below `path`.
pub open spec fn io_write_failure(why: IoFailure, path: Seq<char>) -> Failure {
    match why {
        IoFailure::PermissionDenied => Failure { kind: ErrorKind::PermissionDenied, detail: path },
        IoFailure::Other => Failure { kind: ErrorKind::WriteError, detail: path },
    }
}

/// The failure of reading or decoding the input, with its cause.
pub open spec fn decode_failure(input: Seq<char>, cause: Seq<char>) -> Failure {
    Failure { kind: ErrorKind::ExecutionFailed, detail: "open "@ + input + ": "@ + cause }
}

/// The failure of encoding or writing the output, with its cause.
pub open spec fn encode_failure(output: Seq<char>, cause: Seq<char>) -> Failure {
    Failure { kind: ErrorKind::OutputWriteFailed, detail: "save "@ + output + ": "@ + cause }
}

/// Whether `text` begins with `lead`.
pub open spec fn begins_with(text: Seq<char>, lead: Seq<char>) -> bool {
    lead.len() <= text.len() && text.subrange(0, lead.len() as int) == lead
}

/// A text begins with whatever it was made to begin with.
pub proof fn begins_with_its_lead(lead: Seq<char>, rest: Seq<char>)
    ensures
        begins_with(lead + rest, lead),
{
    assert((lead + rest).subrange(0, lead.len() as int) =~= lead);
}

/// Whether `f` is a [`decode_failure`] for this input, whatever the cause.
pub open spec fn decode_refused(f: Failure, input: Seq<char>) -> bool {
    f.kind == ErrorKind::ExecutionFailed && begins_with(f.detail, "open "@ + input + ": "@)
}

/// Whether `f` is an [`encode_failure`] for this output, whatever the cause.
pub open spec fn encode_refused(f: Failure, output: Seq<char>) -> bool {
    f.kind == ErrorKind::OutputWriteFailed && begins_with(f.detail, "save "@ + output + ": "@)
}

/// What becomes of a transcoding once the decoder has spoken. A failure of
/// the decoder is a [`decode_failure`] in the decoder's words. A picture goes
/// to the encoder for the format `to`: the bytes it writes are the result, and
/// a failure of the encoder is an [`encode_failure`] in the encoder's words.
pub open spec fn after_decode(
    decoded: Result<image::DynamicImage, image::ImageError>,
    input: Seq<char>,
    output: Seq<char>,
    to: FormatType,
) -> Result<Seq<u8>, Failure> {
    match decoded {
        Err(e) => Err(decode_failure(input, failure_text(e))),
        Ok(picture) => match encoded(picture, to) {
            Ok(bytes) => Ok(bytes),
            Err(cause) => Err(encode_failure(output, cause)),
        },
    }
}

/// Whether `outcome` is what the codec makes of `source`: the decoder yields
/// a picture if and only if the bytes decode as `from`, and `outcome` is what
/// [`after_decode`] makes of whatever the decoder yields.
pub open spec fn transcoding(
    outcome: Result<Seq<u8>, Failure>,
    input: Seq<char>,
    source: Seq<u8>,
    from: FormatType,
    output: Seq<char>,
    to: FormatType,
) -> bool {
    exists|decoded: Result<image::DynamicImage, image::ImageError>|
        (decoded is Ok <==> decodable(source, from)) && outcome == #[trigger] after_decode(
            decoded,
            input,
            output,
            to,
        )
}

/// A failed transcoding is a failure of the decoder that names the input, if
/// the source does not decode, and a failure of the encoder that names the
/// output, if it does.
pub proof fn failed_transcoding_names_its_path(
    e: Failure,
    input: Seq<char>,
    source: Seq<u8>,
    from: FormatType,
    output: Seq<char>,
    to: FormatType,
)
    requires
        transcoding(Err(e), input, source, from, output, to),
    ensures
        !decodable(source, from) ==> decode_refused(e, input),
        decodable(source, from) ==> encode_refused(e, output),
{
    let decoded = choose|decoded: Result<image::DynamicImage, image::ImageError>|
        (decoded is Ok <==> decodable(source, from)) && Err::<Seq<u8>, Failure>(e)
            == #[trigger] after_decode(decoded, input, output, to);
    match decoded {
        Err(refusal) => {
            begins_with_its_lead("open "@ + input + ": "@, failure_text(refusal));
        },
        Ok(picture) => {
            begins_with_its_lead("save "@ + output + ": "@, encoded(picture, to)->Err_0);
        },
    }
}

/// A transcoding that yields bytes has decoded its source, and the bytes are
/// what the encoder makes of some picture in the target format.
pub proof fn transcoded_bytes_come_from_the_encoder(
    bytes: Seq<u8>,
    input: Seq<char>,
    source: Seq<u8>,
    from: FormatType,
    output: Seq<char>,
    to: FormatType,
)
    requires
        transcoding(Ok(bytes), input, source, from, output, to),
    ensures
        decodable(source, from),
        exists|picture: image::DynamicImage| #[trigger]
            encoded(picture, to) == Ok::<Seq<u8>, Seq<char>>(bytes),
{
    let decoded = choose|decoded: Result<image::DynamicImage, image::ImageError>|
        (decoded is Ok <==> decodable(source, from)) && Ok::<Seq<u8>, Failure>(bytes)
            == #[trigger] after_decode(decoded, input, output, to);
    assert(encoded(decoded->Ok_0, to) == Ok::<Seq<u8>, Seq<char>>(bytes));
}

/// The mathematical value of what the codec made of its input.
pub open spec fn codec_outcome(outcome: Result<Vec<u8>, MeltforgeError>) -> Result<
    Seq<u8>,
    Failure,
> {
    match outcome {
        Ok(bytes) => Ok(bytes@),
        Err(e) => Err(e@),
    }
}

/// Making sure that the parent of the output path exists: if the host does
/// not find it, it is asked to create it. A path without a parent, and a bare
/// file name, whose parent is the empty path, lie where nothing is to be
/// created.
pub open spec fn parent_plan(output: Seq<char>, seen: Findings) -> Plan<Result<(), Failure>> {
    match path_parent(output) {
        None => Plan::Done(Ok(())),
        Some(dir) => if dir.len() == 0 {
            Plan::Done(Ok(()))
        } else {
            match seen.parent_exists {
                None => Plan::Ask(QuerySpec::ParentExists(dir)),
                Some(true) => Plan::Done(Ok(())),
                Some(false) => match seen.parent_created {
                    None => Plan::Ask(QuerySpec::CreateParent(dir)),
                    Some(Ok(())) => Plan::Done(Ok(())),
                    Some(Err(why)) => Plan::Done(Err(io_write_failure(why, dir))),
                },
            }
        },
    }
}

/// Where a conversion stands, as far as it can be told without the codec.
pub enum Route {
    /// The host is asked something.
    Ask(QuerySpec),
    /// The input has been read and is to be transcoded; the result goes to
    /// `output`.
    Transcode { source: Seq<u8>, from: FormatType, to: FormatType, output: Seq<char> },
    /// The conversion has ended: with the path written to, or with a
    /// failure.
    Done(Result<Seq<char>, Failure>),
}

/// The last stage of a conversion from `from`: read the input, transcode it,
/// write the output.
pub open spec fn codec_route(cj: ConvertJob, from: FormatType, seen: Findings) -> Route {
    let output = resolved_output(cj);
    match seen.source {
        None => Route::Ask(QuerySpec::ReadSource(cj.input@)),
        Some(Err(cause)) => Route::Done(Err(decode_failure(cj.input@, cause@))),
        Some(Ok(bytes)) => match seen.stored {
            None => Route::Transcode { source: bytes@, from, to: cj.format_type, output },
            Some(Ok(())) => Route::Done(Ok(output)),
            Some(Err(cause)) => Route::Done(Err(encode_failure(output, cause@))),
        },
    }
}

/// The whole conversion: validation, then the parent of the resolved output
/// path, then the format of the input once more, then the codec.
pub open spec fn conversion_route(cj: ConvertJob, seen: Findings) -> Route {
    match validation_plan(cj, seen) {
        Plan::Ask(query) => Route::Ask(query),
        Plan::Done(Err(e)) => Route::Done(Err(e)),
        Plan::Done(Ok(())) => match parent_plan(resolved_output(cj), seen) {
            Plan::Ask(query) => Route::Ask(query),
            Plan::Done(Err(e)) => Route::Done(Err(e)),
            Plan::Done(Ok(())) => match detected_format(cj.input@) {
                Err(e) => Route::Done(Err(e)),
                Ok(from) => match compatibility(from, cj.format_type) {
                    Err(e) => Route::Done(Err(e)),
                    Ok(()) => codec_route(cj, from, seen),
                },
            },
        },
    }
}

/// What becomes of a conversion once the codec has spoken: its bytes go to
/// the host to be written to `output`, or its failure ends the conversion.
pub open spec fn codec_step(output: Seq<char>, outcome: Result<Seq<u8>, Failure>) -> Plan<
    Result<Seq<char>, Failure>,
> {
    match outcome {
        Ok(bytes) => Plan::Ask(QuerySpec::Store(output, bytes)),
        Err(e) => Plan::Done(Err(e)),
    }
}

/// What [`convert`] may return: what the route says, and where the route
/// says `Transcode`, what becomes of the [`transcoding`] of the source:
/// either the codec's bytes on their way to the resolved path, or the
/// codec's failure.
pub open spec fn conversion_step(
    cj: ConvertJob,
    seen: Findings,
    step: Plan<Result<Seq<char>, Failure>>,
) -> bool {
    match conversion_route(cj, seen) {
        Route::Ask(query) => step == Plan::<Result<Seq<char>, Failure>>::Ask(query),
        Route::Done(outcome) => step == Plan::Done(outcome),
        Route::Transcode { source, from, to, output } => match step {
            Plan::Ask(QuerySpec::Store(path, bytes)) => path == output && transcoding(
                Ok(bytes),
                cj.input@,
                source,
                from,
                output,
                to,
            ),
            Plan::Done(Err(e)) => transcoding(Err(e), cj.input@, source, from, output, to),
            _ => false,
        },
    }
}

/// Returns the output path that follows from `input`: the same path with the
/// extension of `to` (`jpg` for JPEG, `png` for PNG) in place of its own.
pub fn derive_output_path(input: &str, to: FormatType) -> (output: String)
    ensures
        output@ == derived_output(input@, to),
{
    let ext = to.extension();
    proof {
        reveal_strlit("png");
        reveal_strlit("jpg");
    }
    with_extension(input, ext)
}

/// Turns a refused write below `p` into the failure that reports it: a
/// refusal for want of permission is told apart from any other.
pub fn map_io_write(e: IoFailure, p: String) -> (failure: MeltforgeError)
    ensures
        failure@ == io_write_failure(e, p@),
{
    match e {
        IoFailure::PermissionDenied => MeltforgeError::Io(IoError::PermissionDenied(p)),
        IoFailure::Other => MeltforgeError::Io(IoError::WriteError(p)),
    }
}

/// Returns the failure of reading or decoding `input`, with its cause.
pub fn decode_failed(input: &str, cause: &str) -> (failure: MeltforgeError)
    ensures
        failure@ == decode_failure(input@, cause@),
{
    let detail = String::from_str("open ").concat(input).concat(": ").concat(cause);
    MeltforgeError::Conversion(ConversionError::ExecutionFailed(detail))
}

/// Returns the failure of encoding or writing `output`, with its cause.
pub fn encode_failed(output: &str, cause: &str) -> (failure: MeltforgeError)
    ensures
        failure@ == encode_failure(output@, cause@),
{
    let detail = String::from_str("save ").concat(output).concat(": ").concat(cause);
    MeltforgeError::Conversion(ConversionError::OutputWriteFailed(detail))
}

/// Finishes a transcoding once the decoder has spoken: reports its failure
/// with `input` and the decoder's words, or hands its picture to the encoder
/// for the format `to` and returns the bytes, or else reports the encoder's
/// failure with `output` and the encoder's words.
pub fn finish_transcoding(
    decoded: Result<image::DynamicImage, image::ImageError>,
    input: &str,
    output: &str,
    to: FormatType,
) -> (r: Result<Vec<u8>, MeltforgeError>)
    ensures
        codec_outcome(r) == after_decode(decoded, input@, output@, to),
{
    match decoded {
        Err(e) => {
            let cause = describe(&e);
            Err(decode_failed(input, cause.as_str()))
        },
        Ok(picture) => match encode(&picture, to) {
            Err(e) => {
                let cause = describe(&e);
                Err(encode_failed(output, cause.as_str()))
            },
            Ok(bytes) => Ok(bytes),
        },
    }
}

/// Decodes `source` as `from` and encodes the picture as `to`. A failure
/// names `input` if decoding failed, `output` if encoding did, and holds the
/// codec's words in both cases.
fn transcode(input: &str, source: &[u8], from: FormatType, output: &str, to: FormatType) -> (r:
    Result<Vec<u8>, MeltforgeError>)
    ensures
        transcoding(codec_outcome(r), input@, source@, from, output@, to),
{
    let decoded = decode(source, from);
    let ghost witness = decoded;
    let r = finish_transcoding(decoded, input, output, to);
    proof {
        assert(codec_outcome(r) == after_decode(witness, input@, output@, to));
    }
    r
}

/// Turns the bytes of a PNG file into those of a JPEG file: decodes them as
/// PNG and returns what the encoder makes of the picture as JPEG. `input`
/// and `output` are the paths that a failure names: `input` if the bytes do
/// not decode, `output` if the picture cannot be encoded; either failure
/// holds the codec's words.
pub fn convert_png_jpg(input: &str, source: &[u8], output: &str) -> (r: Result<
    Vec<u8>,
    MeltforgeError,
>)
    ensures
        transcoding(
            codec_outcome(r),
            input@,
            source@,
            FormatType::PNG,
            output@,
            FormatType::JPEG,
        ),
{
    transcode(input, source, FormatType::PNG, output, FormatType::JPEG)
}

/// Turns the bytes of a JPEG file into those of a PNG file: decodes them as
/// JPEG and returns what the encoder makes of the picture as PNG. `input`
/// and `output` are the paths that a failure names: `input` if the bytes do
/// not decode, `output` if the picture cannot be encoded; either failure
/// holds the codec's words.
pub fn convert_jpg_png(input: &str, source: &[u8], output: &str) -> (r: Result<
    Vec<u8>,
    MeltforgeError,
>)
    ensures
        transcoding(
            codec_outcome(r),
            input@,
            source@,
            FormatType::JPEG,
            output@,
            FormatType::PNG,
        ),
{
    transcode(input, source, FormatType::JPEG, output, FormatType::PNG)
}

/// Makes sure that the parent of `output` exists, as far as the findings
/// reach: if the path has a parent and the host does not find it, the host is
/// asked to create it, with all that it lacks above it. A bare file name lies
/// in the current directory, and nothing is asked for it.
pub fn ensure_parent(output: &str, seen: &Findings) -> (r: Step<Result<(), MeltforgeError>>)
    ensures
        r@ == parent_plan(output@, *seen),
{
    let dir = match parent(output) {
        None => { return Step::Done(Ok(())); },
        Some(dir) => dir,
    };
    if dir.as_str().is_empty() {
        return Step::Done(Ok(()));
    }
    match seen.parent_exists {
        None => Step::Ask(Query::ParentExists(dir)),
        Some(true) => Step::Done(Ok(())),
        Some(false) => match seen.parent_created {
            None => Step::Ask(Query::CreateParent(dir)),
            Some(Ok(())) => Step::Done(Ok(())),
            Some(Err(why)) => Step::Done(Err(map_io_write(why, dir))),
        },
    }
}

/// Hands the codec's bytes to the host to be written to `output`, or ends the
/// conversion with the codec's failure.
pub fn after_transcode(output: String, outcome: Result<Vec<u8>, MeltforgeError>) -> (r: Step<
    Result<String, MeltforgeError>,
>)
    ensures
        r@ == codec_step(output@, codec_outcome(outcome)),
{
    match outcome {
        Ok(bytes) => Step::Ask(Query::Store(output, bytes)),
        Err(e) => Step::Done(Err(e)),
    }
}

/// Converts the input of `cj` to the format it asks for, as far as the
/// findings reach, and returns the path written to.
///
/// The request is validated first; a failure of validation is returned as it
/// is. The output path is the one the caller chose, or else the input path
/// with the extension of the target format. Its parent is created if the host
/// does not find it. The format of the input is then told once more, the
/// input is read, transcoded in memory, and written.
///
/// Everything but the codec's work is settled by [`conversion_route`]. Where
/// that route says `Transcode`, the codec decides. If the source does not
/// decode, the conversion ends with a [`decode_failure`]. If it does, what
/// the encoder makes of the picture in the target format is handed to the
/// host to be stored at the resolved path, unless encoding fails and the
/// conversion ends with an [`encode_failure`].
pub fn convert(cj: &ConvertJob, seen: &Findings) -> (r: Step<Result<String, MeltforgeError>>)
    ensures
        conversion_step(*cj, *seen, r@),
{
    match validate_job(cj, seen) {
        Step::Ask(query) => { return Step::Ask(query); },
        Step::Done(Err(e)) => { return Step::Done(Err(e)); },
        Step::Done(Ok(())) => {},
    }
    let output_path = match &cj.output {
        Some(output) => output.clone(),
        None => derive_output_path(cj.input.as_str(), cj.format_type),
    };
    match ensure_parent(output_path.as_str(), seen) {
        Step::Ask(query) => { return Step::Ask(query); },
        Step::Done(Err(e)) => { return Step::Done(Err(e)); },
        Step::Done(Ok(())) => {},
    }
    let input_fmt = match detect_input_format(cj.input.as_str()) {
        Err(e) => { return Step::Done(Err(MeltforgeError::Format(e))); },
        Ok(format) => format,
    };
    match validate_compatibility(input_fmt, cj.format_type) {
        Err(e) => { return Step::Done(Err(MeltforgeError::Format(e))); },
        Ok(()) => {},
    }
    match &seen.source {
        None => Step::Ask(Query::ReadSource(cj.input.clone())),
        Some(Err(cause)) => Step::Done(Err(decode_failed(cj.input.as_str(), cause.as_str()))),
        Some(Ok(bytes)) => match &seen.stored {
            Some(Ok(())) => Step::Done(Ok(output_path)),
            Some(Err(cause)) => Step::Done(
                Err(encode_failed(output_path.as_str(), cause.as_str())),
            ),
            None => {
                let outcome = match input_fmt {
                    FormatType::PNG => convert_png_jpg(
                        cj.input.as_str(),
                        bytes.as_slice(),
                        output_path.as_str(),
                    ),
                    FormatType::JPEG => convert_jpg_png(
                        cj.input.as_str(),
                        bytes.as_slice(),
                        output_path.as_str(),
                    ),
                };
                after_transcode(output_path, outcome)
            },
        },
    }
}

} // verus!
