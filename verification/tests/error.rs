use renderdoc::error::Error;

#[test]
fn short_messages() {
    assert_eq!(
        Error::LibraryNotFound.fmt_display(false),
        "Unable to load RenderDoc shared library"
    );
    assert_eq!(
        Error::SymbolNotFound.fmt_display(false),
        "Unable to find `RENDERDOC_GetAPI` symbol"
    );
    assert_eq!(
        Error::NoCompatibleApi.fmt_display(false),
        "Library could not provide compatible API"
    );
    assert_eq!(
        Error::InstanceAlreadyActive.fmt_display(false),
        "Multiple API instances are not permitted"
    );
    assert_eq!(
        Error::NonUtf8Path.fmt_display(false),
        "RenderDoc only accepts UTF-8 paths"
    );
    assert_eq!(
        Error::LaunchReplayUi.fmt_display(false),
        "Failed to launch replay UI"
    );
    assert_eq!(
        Error::SetCaptureOptions {
            option: 5,
            value: 7
        }
        .fmt_display(false),
        "Invalid capture option or value, option left unchanged"
    );
    assert_eq!(
        Error::GetCaptureOptions { option: 5 }.fmt_display(false),
        "Invalid capture option"
    );
}

#[test]
fn alternate_messages_name_the_numbers() {
    assert_eq!(
        Error::SetCaptureOptions {
            option: 5,
            value: 7
        }
        .fmt_display(true),
        "Invalid capture option 5 or value 7 out of range"
    );
    assert_eq!(
        Error::SetCaptureOptions {
            option: 12,
            value: u32::MAX
        }
        .fmt_display(true),
        "Invalid capture option 12 or value 4294967295 out of range"
    );
    assert_eq!(
        Error::GetCaptureOptions { option: 0 }.fmt_display(true),
        "Invalid capture option 0"
    );
    assert_eq!(
        Error::GetCaptureOptions { option: 1000 }.fmt_display(true),
        "Invalid capture option 1000"
    );
    // the errors without numbers read the same either way
    assert_eq!(
        Error::NoCompatibleApi.fmt_display(true),
        Error::NoCompatibleApi.fmt_display(false)
    );
}

#[test]
fn numbers_print_as_the_formatter_of_std_prints_them() {
    for value in [0u32, 1, 9, 10, 99, 100, 4096, 65_535, 1_000_000, u32::MAX] {
        assert_eq!(
            Error::GetCaptureOptions { option: value }.fmt_display(true),
            format!("Invalid capture option {}", value)
        );
    }
    let mut text = String::from("x");
    renderdoc::fmt::push_decimal(&mut text, 305);
    renderdoc::fmt::push_digits(&mut text, 5, 2);
    renderdoc::fmt::push_digits(&mut text, 8, 8);
    assert_eq!(text, "x30510110");
}
