use renderdoc::c_str::c_string;
use renderdoc::captures::Captures;
use renderdoc::error::Error;
use renderdoc::version::{V100, V120, V160};

#[test]
fn c_string_appends_one_zero() {
    assert_eq!(c_string(""), Some(vec![0]));
    assert_eq!(c_string("a"), Some(vec![b'a', 0]));
    assert_eq!(
        c_string("my_captures/example"),
        Some(b"my_captures/example\0".to_vec())
    );
    // text beyond ASCII goes out in UTF-8
    assert_eq!(c_string("é"), Some(vec![0xc3, 0xa9, 0]));
}

#[test]
fn c_string_refuses_a_zero_inside() {
    assert_eq!(c_string("\0"), None);
    assert_eq!(c_string("a\0b"), None);
    assert_eq!(c_string("ab\0"), None);
    assert_eq!(c_string("\0ab"), None);
}

#[test]
fn path_template_that_is_not_utf8_is_an_error() {
    assert_eq!(
        Captures::<V100>::set_path_template(None),
        Err(Error::NonUtf8Path)
    );
    assert_eq!(
        Captures::<V100>::set_path_template(Some("my_captures/example")),
        Ok(b"my_captures/example\0".to_vec())
    );
    assert_eq!(Captures::<V160>::set_path_template(Some("")), Ok(vec![0]));
}

#[test]
fn comments_go_out_with_their_capture_file() {
    assert_eq!(
        Captures::<V120>::set_comments(None, "first triangle"),
        Err(Error::NonUtf8Path)
    );
    assert_eq!(
        Captures::<V120>::set_comments(Some("a.rdc"), "first triangle"),
        Ok((b"a.rdc\0".to_vec(), b"first triangle\0".to_vec()))
    );
    // an empty path stands for the latest capture
    assert_eq!(
        Captures::<V160>::set_comments(Some(""), ""),
        Ok((vec![0], vec![0]))
    );
}
