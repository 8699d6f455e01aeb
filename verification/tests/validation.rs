use mf_core::error::{FormatError, InputError, IoError, MeltforgeError};
use mf_core::format::FormatType;
use mf_core::host::{Findings, IoFailure, PathKind, Query, Step};
use mf_core::job::ConvertJob;
use mf_core::validate::{ensure_readable, validate_job, validate_output_dir, validate_path};

fn request(input: &str, output: Option<&str>, format_type: FormatType) -> ConvertJob {
    ConvertJob { input: input.to_string(), output: output.map(str::to_string), format_type }
}

fn readable_file() -> Findings {
    let mut seen = Findings::new();
    seen.input_kind = Some(PathKind::File);
    seen.input_open = Some(Ok(()));
    seen
}

#[test]
fn blank_findings_hold_nothing() {
    let seen = Findings::new();
    assert_eq!(seen.input_kind, None);
    assert_eq!(seen.input_open, None);
    assert_eq!(seen.output_exists, None);
    assert_eq!(seen.output_dir_exists, None);
    assert_eq!(seen.probe_created, None);
    assert_eq!(seen.parent_exists, None);
    assert_eq!(seen.parent_created, None);
    assert_eq!(seen.source, None);
    assert_eq!(seen.stored, None);
}

#[test]
fn regular_file_passes_the_path_check() {
    assert_eq!(validate_path("photo.png", PathKind::File), Ok(()));
}

#[test]
fn missing_path_fails_the_path_check() {
    assert_eq!(
        validate_path("missing.png", PathKind::Missing),
        Err(InputError::MissingInputFile("missing.png".to_string()))
    );
}

#[test]
fn directory_fails_the_path_check() {
    assert_eq!(
        validate_path("photos", PathKind::Other),
        Err(InputError::MissingInputFile("photos".to_string()))
    );
}

#[test]
fn opened_file_is_readable() {
    assert_eq!(ensure_readable("photo.png", Ok(())), Ok(()));
}

#[test]
fn permission_denied_is_told_apart_from_other_read_failures() {
    assert_eq!(
        ensure_readable("secret.png", Err(IoFailure::PermissionDenied)),
        Err(IoError::PermissionDenied("secret.png".to_string()))
    );
    assert_eq!(
        ensure_readable("odd.png", Err(IoFailure::Other)),
        Err(IoError::ReadError("odd.png".to_string()))
    );
}

#[test]
fn output_check_first_asks_whether_the_path_is_taken() {
    let seen = Findings::new();
    assert_eq!(
        validate_output_dir("out/result.png", &seen),
        Step::Ask(Query::OutputExists("out/result.png".to_string()))
    );
}

#[test]
fn taken_output_path_is_a_write_error() {
    let mut seen = Findings::new();
    seen.output_exists = Some(true);
    assert_eq!(
        validate_output_dir("out/result.png", &seen),
        Step::Done(Err(IoError::WriteError("out/result.png".to_string())))
    );
}

#[test]
fn taken_output_path_decides_whatever_else_is_known() {
    let mut seen = Findings::new();
    seen.output_exists = Some(true);
    seen.output_dir_exists = Some(true);
    seen.probe_created = Some(true);
    assert_eq!(
        validate_output_dir("out/result.png", &seen),
        Step::Done(Err(IoError::WriteError("out/result.png".to_string())))
    );
}

#[test]
fn output_check_then_asks_for_the_directory() {
    let mut seen = Findings::new();
    seen.output_exists = Some(false);
    assert_eq!(
        validate_output_dir("out/result.png", &seen),
        Step::Ask(Query::OutputDirExists("out".to_string()))
    );
    assert_eq!(
        validate_output_dir("/srv/pics/deep/result.png", &seen),
        Step::Ask(Query::OutputDirExists("/srv/pics/deep".to_string()))
    );
}

#[test]
fn bare_file_name_lies_in_the_current_directory() {
    let mut seen = Findings::new();
    seen.output_exists = Some(false);
    assert_eq!(
        validate_output_dir("result.jpg", &seen),
        Step::Ask(Query::OutputDirExists(".".to_string()))
    );
    seen.output_dir_exists = Some(true);
    assert_eq!(
        validate_output_dir("result.jpg", &seen),
        Step::Ask(Query::ProbeWrite("./.meltforge_write_test".to_string()))
    );
    seen.probe_created = Some(true);
    assert_eq!(validate_output_dir("result.jpg", &seen), Step::Done(Ok(())));
}

#[test]
fn bare_file_name_in_a_read_only_current_directory_is_permission_denied() {
    let mut seen = Findings::new();
    seen.output_exists = Some(false);
    seen.output_dir_exists = Some(true);
    seen.probe_created = Some(false);
    assert_eq!(
        validate_output_dir("result.jpg", &seen),
        Step::Done(Err(IoError::PermissionDenied(".".to_string())))
    );
}

#[test]
fn path_without_parent_is_checked_in_the_current_directory() {
    let mut seen = Findings::new();
    seen.output_exists = Some(false);
    assert_eq!(validate_output_dir("/", &seen), Step::Ask(Query::OutputDirExists(".".to_string())));
    assert_eq!(validate_output_dir("", &seen), Step::Ask(Query::OutputDirExists(".".to_string())));
}

#[test]
fn missing_directory_is_a_write_error_on_the_output_path() {
    let mut seen = Findings::new();
    seen.output_exists = Some(false);
    seen.output_dir_exists = Some(false);
    assert_eq!(
        validate_output_dir("out/result.png", &seen),
        Step::Done(Err(IoError::WriteError("out/result.png".to_string())))
    );
}

#[test]
fn output_check_then_probes_the_directory() {
    let mut seen = Findings::new();
    seen.output_exists = Some(false);
    seen.output_dir_exists = Some(true);
    assert_eq!(
        validate_output_dir("out/result.png", &seen),
        Step::Ask(Query::ProbeWrite("out/.meltforge_write_test".to_string()))
    );
    assert_eq!(
        validate_output_dir("/", &seen),
        Step::Ask(Query::ProbeWrite("./.meltforge_write_test".to_string()))
    );
}

#[test]
fn failed_probe_is_permission_denied_on_the_directory() {
    let mut seen = Findings::new();
    seen.output_exists = Some(false);
    seen.output_dir_exists = Some(true);
    seen.probe_created = Some(false);
    assert_eq!(
        validate_output_dir("out/result.png", &seen),
        Step::Done(Err(IoError::PermissionDenied("out".to_string())))
    );
}

#[test]
fn successful_probe_passes_the_output_check() {
    let mut seen = Findings::new();
    seen.output_exists = Some(false);
    seen.output_dir_exists = Some(true);
    seen.probe_created = Some(true);
    assert_eq!(validate_output_dir("out/result.png", &seen), Step::Done(Ok(())));
}

#[test]
fn validation_first_asks_what_the_input_is() {
    let cj = request("photo.png", Some("out/result.jpg"), FormatType::JPEG);
    assert_eq!(
        validate_job(&cj, &Findings::new()),
        Step::Ask(Query::InputKind("photo.png".to_string()))
    );
}

#[test]
fn validation_rejects_a_missing_input() {
    let cj = request("missing.png", None, FormatType::JPEG);
    let mut seen = Findings::new();
    seen.input_kind = Some(PathKind::Missing);
    assert_eq!(
        validate_job(&cj, &seen),
        Step::Done(Err(MeltforgeError::Input(InputError::MissingInputFile(
            "missing.png".to_string()
        ))))
    );
}

#[test]
fn validation_rejects_a_directory_as_input() {
    let cj = request("photos.png", None, FormatType::JPEG);
    let mut seen = Findings::new();
    seen.input_kind = Some(PathKind::Other);
    assert_eq!(
        validate_job(&cj, &seen),
        Step::Done(Err(MeltforgeError::Input(InputError::MissingInputFile(
            "photos.png".to_string()
        ))))
    );
}

#[test]
fn existence_is_checked_before_the_format() {
    let cj = request("missing.txt", None, FormatType::PNG);
    let mut seen = Findings::new();
    seen.input_kind = Some(PathKind::Missing);
    assert_eq!(
        validate_job(&cj, &seen),
        Step::Done(Err(MeltforgeError::Input(InputError::MissingInputFile(
            "missing.txt".to_string()
        ))))
    );
}

#[test]
fn validation_then_asks_whether_the_input_opens() {
    let cj = request("photo.png", None, FormatType::JPEG);
    let mut seen = Findings::new();
    seen.input_kind = Some(PathKind::File);
    assert_eq!(validate_job(&cj, &seen), Step::Ask(Query::InputOpens("photo.png".to_string())));
}

#[test]
fn readability_is_checked_before_the_format() {
    let cj = request("locked.txt", None, FormatType::PNG);
    let mut seen = Findings::new();
    seen.input_kind = Some(PathKind::File);
    seen.input_open = Some(Err(IoFailure::PermissionDenied));
    assert_eq!(
        validate_job(&cj, &seen),
        Step::Done(Err(MeltforgeError::Io(IoError::PermissionDenied("locked.txt".to_string()))))
    );
    seen.input_open = Some(Err(IoFailure::Other));
    assert_eq!(
        validate_job(&cj, &seen),
        Step::Done(Err(MeltforgeError::Io(IoError::ReadError("locked.txt".to_string()))))
    );
}

#[test]
fn validation_rejects_an_unsupported_input_format() {
    let cj = request("doc.txt", None, FormatType::PNG);
    assert_eq!(
        validate_job(&cj, &readable_file()),
        Step::Done(Err(MeltforgeError::Format(FormatError::UnsupportedInput("txt".to_string()))))
    );
}

#[test]
fn validation_rejects_an_input_without_extension() {
    let cj = request("photo", None, FormatType::PNG);
    assert_eq!(
        validate_job(&cj, &readable_file()),
        Step::Done(Err(MeltforgeError::Format(FormatError::UnsupportedInput(
            "<no extension>".to_string()
        ))))
    );
}

#[test]
fn validation_rejects_the_same_format() {
    let cj = request("photo.png", None, FormatType::PNG);
    assert_eq!(
        validate_job(&cj, &readable_file()),
        Step::Done(Err(MeltforgeError::Format(FormatError::UnsupportedOutput(
            "PNG → PNG not supported yet".to_string()
        ))))
    );
    let cj = request("photo.jpeg", None, FormatType::JPEG);
    assert_eq!(
        validate_job(&cj, &readable_file()),
        Step::Done(Err(MeltforgeError::Format(FormatError::UnsupportedOutput(
            "JPEG → JPEG not supported yet".to_string()
        ))))
    );
}

#[test]
fn format_pair_is_checked_before_the_output_path() {
    let cj = request("photo.png", Some("taken.png"), FormatType::PNG);
    let mut seen = readable_file();
    seen.output_exists = Some(true);
    assert_eq!(
        validate_job(&cj, &seen),
        Step::Done(Err(MeltforgeError::Format(FormatError::UnsupportedOutput(
            "PNG → PNG not supported yet".to_string()
        ))))
    );
}

#[test]
fn validation_without_output_path_ends_after_the_format_checks() {
    let cj = request("photo.png", None, FormatType::JPEG);
    assert_eq!(validate_job(&cj, &readable_file()), Step::Done(Ok(())));
}

#[test]
fn validation_with_output_path_goes_on_to_check_it() {
    let cj = request("photo.png", Some("out/result.jpg"), FormatType::JPEG);
    let mut seen = readable_file();
    assert_eq!(
        validate_job(&cj, &seen),
        Step::Ask(Query::OutputExists("out/result.jpg".to_string()))
    );
    seen.output_exists = Some(false);
    assert_eq!(validate_job(&cj, &seen), Step::Ask(Query::OutputDirExists("out".to_string())));
    seen.output_dir_exists = Some(true);
    assert_eq!(
        validate_job(&cj, &seen),
        Step::Ask(Query::ProbeWrite("out/.meltforge_write_test".to_string()))
    );
    seen.probe_created = Some(true);
    assert_eq!(validate_job(&cj, &seen), Step::Done(Ok(())));
}

#[test]
fn validation_reports_output_failures_as_io_errors() {
    let cj = request("photo.png", Some("out/result.jpg"), FormatType::JPEG);
    let mut seen = readable_file();
    seen.output_exists = Some(true);
    assert_eq!(
        validate_job(&cj, &seen),
        Step::Done(Err(MeltforgeError::Io(IoError::WriteError("out/result.jpg".to_string()))))
    );
    seen.output_exists = Some(false);
    seen.output_dir_exists = Some(false);
    assert_eq!(
        validate_job(&cj, &seen),
        Step::Done(Err(MeltforgeError::Io(IoError::WriteError("out/result.jpg".to_string()))))
    );
    seen.output_dir_exists = Some(true);
    seen.probe_created = Some(false);
    assert_eq!(
        validate_job(&cj, &seen),
        Step::Done(Err(MeltforgeError::Io(IoError::PermissionDenied("out".to_string()))))
    );
}

#[test]
fn a_verdict_stays_when_more_becomes_known() {
    let cj = request("missing.png", Some("out/result.jpg"), FormatType::JPEG);
    let mut seen = Findings::new();
    seen.input_kind = Some(PathKind::Missing);
    let verdict = validate_job(&cj, &seen);
    seen.input_open = Some(Ok(()));
    seen.output_exists = Some(false);
    seen.output_dir_exists = Some(true);
    seen.probe_created = Some(true);
    assert_eq!(validate_job(&cj, &seen), verdict);
}
