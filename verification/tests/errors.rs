use mf_core::error::{
    Category, ConversionError, FormatError, InputError, IoError, MeltforgeError,
};

fn one_of_each() -> Vec<MeltforgeError> {
    vec![
        MeltforgeError::Input(InputError::MissingInputFile("a.png".to_string())),
        MeltforgeError::Format(FormatError::UnsupportedInput("txt".to_string())),
        MeltforgeError::Conversion(ConversionError::ExecutionFailed("bad".to_string())),
        MeltforgeError::Io(IoError::WriteError("out.png".to_string())),
    ]
}

#[test]
fn exit_codes_by_category() {
    let codes: Vec<u8> = one_of_each().iter().map(|e| e.exit_code()).collect();
    assert_eq!(codes, vec![2, 3, 4, 5]);
}

#[test]
fn exit_code_of_every_variant() {
    let input = [
        InputError::MissingInputFile("x".to_string()),
        InputError::MissingTargetFormat,
        InputError::InvalidArgument("x".to_string()),
    ];
    for e in input {
        assert_eq!(MeltforgeError::Input(e).exit_code(), 2);
    }
    let format = [
        FormatError::UnsupportedInput("x".to_string()),
        FormatError::UnsupportedOutput("x".to_string()),
    ];
    for e in format {
        assert_eq!(MeltforgeError::Format(e).exit_code(), 3);
    }
    let conversion = [
        ConversionError::PluginLoadFailed("x".to_string()),
        ConversionError::ExecutionFailed("x".to_string()),
        ConversionError::OutputWriteFailed("x".to_string()),
    ];
    for e in conversion {
        assert_eq!(MeltforgeError::Conversion(e).exit_code(), 4);
    }
    let io = [
        IoError::ReadError("x".to_string()),
        IoError::WriteError("x".to_string()),
        IoError::PermissionDenied("x".to_string()),
    ];
    for e in io {
        assert_eq!(MeltforgeError::Io(e).exit_code(), 5);
    }
}

#[test]
fn categories() {
    let categories: Vec<Category> = one_of_each().iter().map(|e| e.category()).collect();
    assert_eq!(
        categories,
        vec![Category::Input, Category::Format, Category::Conversion, Category::Io]
    );
}

#[test]
fn category_exit_codes_are_distinct() {
    let all = [Category::Input, Category::Format, Category::Conversion, Category::Io];
    assert_eq!(all.map(|c| c.exit_code()), [2, 3, 4, 5]);
    for a in all {
        for b in all {
            assert_eq!(a == b, a.exit_code() == b.exit_code());
        }
    }
}

#[test]
fn exit_code_is_that_of_the_category() {
    for e in one_of_each() {
        assert_eq!(e.exit_code(), e.category().exit_code());
    }
}

#[test]
fn input_error_messages() {
    assert_eq!(
        InputError::MissingInputFile("dir/missing.png".to_string()).message(),
        "Missing input file: dir/missing.png"
    );
    assert_eq!(InputError::MissingTargetFormat.message(), "Missing target format (--to)");
    assert_eq!(
        InputError::InvalidArgument("--quality".to_string()).message(),
        "Invalid argument: --quality "
    );
}

#[test]
fn format_error_messages() {
    assert_eq!(
        FormatError::UnsupportedInput("txt".to_string()).message(),
        "unsupported input format txt"
    );
    assert_eq!(
        FormatError::UnsupportedOutput("PNG → PNG not supported yet".to_string()).message(),
        "unsupported output format PNG → PNG not supported yet"
    );
}

#[test]
fn conversion_error_messages() {
    assert_eq!(
        ConversionError::PluginLoadFailed("none".to_string()).message(),
        "plugin load failed: none"
    );
    assert_eq!(
        ConversionError::ExecutionFailed("open a.png: broken".to_string()).message(),
        "execution failed: open a.png: broken"
    );
    assert_eq!(
        ConversionError::OutputWriteFailed("save a.jpg: full".to_string()).message(),
        "output write failed: save a.jpg: full"
    );
}

#[test]
fn io_error_messages() {
    assert_eq!(IoError::ReadError("a.png".to_string()).message(), "read error: a.png");
    assert_eq!(IoError::WriteError("out/a.jpg".to_string()).message(), "write error: out/a.jpg");
    assert_eq!(
        IoError::PermissionDenied("/root".to_string()).message(),
        "permission denied: /root"
    );
}

#[test]
fn top_level_message_is_that_of_the_failure_inside() {
    assert_eq!(
        MeltforgeError::Input(InputError::MissingInputFile("m.png".to_string())).message(),
        InputError::MissingInputFile("m.png".to_string()).message()
    );
    assert_eq!(
        MeltforgeError::Format(FormatError::UnsupportedInput("txt".to_string())).message(),
        "unsupported input format txt"
    );
    assert_eq!(
        MeltforgeError::Conversion(ConversionError::ExecutionFailed("x".to_string())).message(),
        "execution failed: x"
    );
    assert_eq!(
        MeltforgeError::Io(IoError::PermissionDenied("d".to_string())).message(),
        "permission denied: d"
    );
}

#[test]
fn message_names_the_offending_detail() {
    for e in one_of_each() {
        let detail = match &e {
            MeltforgeError::Input(InputError::MissingInputFile(p)) => p.clone(),
            MeltforgeError::Format(FormatError::UnsupportedInput(x)) => x.clone(),
            MeltforgeError::Conversion(ConversionError::ExecutionFailed(c)) => c.clone(),
            MeltforgeError::Io(IoError::WriteError(p)) => p.clone(),
            _ => unreachable!(),
        };
        assert!(e.message().contains(&detail));
    }
}

#[test]
fn empty_detail_leaves_the_words_of_the_kind() {
    assert_eq!(IoError::ReadError(String::new()).message(), "read error: ");
    assert_eq!(InputError::InvalidArgument(String::new()).message(), "Invalid argument:  ");
}

#[test]
fn failures_convert_into_the_top_level_error() {
    assert_eq!(
        MeltforgeError::from(InputError::MissingTargetFormat),
        MeltforgeError::Input(InputError::MissingTargetFormat)
    );
    assert_eq!(
        MeltforgeError::from(FormatError::UnsupportedInput("x".to_string())),
        MeltforgeError::Format(FormatError::UnsupportedInput("x".to_string()))
    );
    assert_eq!(
        MeltforgeError::from(ConversionError::PluginLoadFailed("x".to_string())),
        MeltforgeError::Conversion(ConversionError::PluginLoadFailed("x".to_string()))
    );
    let io: MeltforgeError = IoError::ReadError("x".to_string()).into();
    assert_eq!(io, MeltforgeError::Io(IoError::ReadError("x".to_string())));
}
