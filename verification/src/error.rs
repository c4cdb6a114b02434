//! The errors of the library.

use vstd::prelude::*;
use vstd::string::StringExecFns;
use crate::fmt::{decimal, push_decimal};

verus! {

/// What can go wrong when the API is loaded or used.
#[derive(Clone, Copy, Debug, PartialEq, Eq, Structural)]
pub enum Error {
    /// The host's shared library is not mapped into this process.
    LibraryNotFound,
    /// The library does not export the entry point.
    SymbolNotFound,
    /// The host is older than the version that was asked for.
    NoCompatibleApi,
    /// A handle to the API is alive already.
    InstanceAlreadyActive,
    /// A path is not valid UTF-8.
    NonUtf8Path,
    /// The replay UI could not be launched.
    LaunchReplayUi,
    /// The host refused to set an option to a value.
    SetCaptureOptions { option: u32, value: u32 },
    /// The host does not know an option.
    GetCaptureOptions { option: u32 },
}

/// What an error says of itself, in short or, with `alternate`, with the
/// numbers that it holds.
pub open spec fn display_text(error: Error, alternate: bool) -> Seq<char> {
    match error {
        Error::LibraryNotFound => "Unable to load RenderDoc shared library"@,
        Error::SymbolNotFound => "Unable to find `RENDERDOC_GetAPI` symbol"@,
        Error::NoCompatibleApi => "Library could not provide compatible API"@,
        Error::InstanceAlreadyActive => "Multiple API instances are not permitted"@,
        Error::NonUtf8Path => "RenderDoc only accepts UTF-8 paths"@,
        Error::LaunchReplayUi => "Failed to launch replay UI"@,
        Error::SetCaptureOptions { option, value } => if alternate {
            "Invalid capture option "@ + decimal(option as nat) + " or value "@ + decimal(
                value as nat,
            ) + " out of range"@
        } else {
            "Invalid capture option or value, option left unchanged"@
        },
        Error::GetCaptureOptions { option } => if alternate {
            "Invalid capture option "@ + decimal(option as nat)
        } else {
            "Invalid capture option"@
        },
    }
}

impl Error {
    /// The message of the error. With `alternate`, the message of a refused
    /// option names the option and the value.
    pub fn fmt_display(&self, alternate: bool) -> (text: String)
        ensures
            text@ == display_text(*self, alternate),
    {
        match *self {
            Error::LibraryNotFound => String::from_str("Unable to load RenderDoc shared library"),
            Error::SymbolNotFound => String::from_str("Unable to find `RENDERDOC_GetAPI` symbol"),
            Error::NoCompatibleApi => String::from_str("Library could not provide compatible API"),
            Error::InstanceAlreadyActive => String::from_str(
                "Multiple API instances are not permitted",
            ),
            Error::NonUtf8Path => String::from_str("RenderDoc only accepts UTF-8 paths"),
            Error::LaunchReplayUi => String::from_str("Failed to launch replay UI"),
            Error::SetCaptureOptions { option, value } => {
                if alternate {
                    let mut text = String::from_str("Invalid capture option ");
                    push_decimal(&mut text, option);
                    text.append(" or value ");
                    push_decimal(&mut text, value);
                    text.append(" out of range");
                    text
                } else {
                    String::from_str("Invalid capture option or value, option left unchanged")
                }
            },
            Error::GetCaptureOptions { option } => {
                if alternate {
                    let mut text = String::from_str("Invalid capture option ");
                    push_decimal(&mut text, option);
                    text
                } else {
                    String::from_str("Invalid capture option")
                }
            },
        }
    }
}

} // verus!
