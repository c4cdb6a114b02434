//! The options of a capture, by name.

use vstd::prelude::*;
use crate::sys::{
    OPTION_ALLOW_FULLSCREEN,
    OPTION_ALLOW_UNSUPPORTED_VENDOR_EXTENSIONS,
    OPTION_ALLOW_VSYNC,
    OPTION_API_VALIDATION,
    OPTION_CAPTURE_ALL_CMD_LISTS,
    OPTION_CAPTURE_CALLSTACKS,
    OPTION_CAPTURE_CALLSTACKS_ONLY_DRAWS,
    OPTION_DEBUG_OUTPUT_MUTE,
    OPTION_DELAY_FOR_DEBUGGER,
    OPTION_HOOK_INTO_CHILDREN,
    OPTION_REF_ALL_RESOURCES,
    OPTION_SAVE_ALL_INITIALS,
    OPTION_VERIFY_MAP_WRITES,
};

verus! {

/// An option of a capture.
#[derive(Clone, Copy, Debug, PartialEq, Eq, Hash, Structural)]
pub enum CaptureOption {
    /// The application may switch vertical synchronisation on.
    AllowVSync,
    /// The application may go fullscreen.
    AllowFullscreen,
    /// The graphics API runs with its own validation. Older versions call this `DebugDeviceMode`.
    ApiValidation,
    /// A CPU callstack is kept for API calls.
    CaptureCallstacks,
    /// Callstacks are kept for draw calls only. Without `CaptureCallstacks` this does nothing.
    CaptureCallstacksOnlyDraws,
    /// The seconds to wait for a debugger after the host was injected.
    DelayForDebugger,
    /// Writes to mapped buffers are checked beyond the bounds of the mapping.
    VerifyMapWrites,
    /// Child processes get the host injected too, with the same options.
    HookIntoChildren,
    /// A capture holds every resource that is alive, not only those of the frame.
    RefAllResources,
    /// The initial state of every resource is saved, whether it is used or not.
    SaveAllInitials,
    /// Command lists are recorded from the start of the application.
    CaptureAllCmdLists,
    /// The API's debug output is muted while `ApiValidation` is on.
    DebugOutputMute,
    /// Vendor extensions stay usable, also where they may break a replay.
    AllowUnsupportedVendorExtensions,
}

/// The code that the host knows an option by.
pub open spec fn option_code(option: CaptureOption) -> u32 {
    match option {
        CaptureOption::AllowVSync => OPTION_ALLOW_VSYNC,
        CaptureOption::AllowFullscreen => OPTION_ALLOW_FULLSCREEN,
        CaptureOption::ApiValidation => OPTION_API_VALIDATION,
        CaptureOption::CaptureCallstacks => OPTION_CAPTURE_CALLSTACKS,
        CaptureOption::CaptureCallstacksOnlyDraws => OPTION_CAPTURE_CALLSTACKS_ONLY_DRAWS,
        CaptureOption::DelayForDebugger => OPTION_DELAY_FOR_DEBUGGER,
        CaptureOption::VerifyMapWrites => OPTION_VERIFY_MAP_WRITES,
        CaptureOption::HookIntoChildren => OPTION_HOOK_INTO_CHILDREN,
        CaptureOption::RefAllResources => OPTION_REF_ALL_RESOURCES,
        CaptureOption::SaveAllInitials => OPTION_SAVE_ALL_INITIALS,
        CaptureOption::CaptureAllCmdLists => OPTION_CAPTURE_ALL_CMD_LISTS,
        CaptureOption::DebugOutputMute => OPTION_DEBUG_OUTPUT_MUTE,
        CaptureOption::AllowUnsupportedVendorExtensions => {
            OPTION_ALLOW_UNSUPPORTED_VENDOR_EXTENSIONS
        },
    }
}

impl CaptureOption {
    /// The code that the host knows the option by.
    pub fn code(self) -> (code: u32)
        ensures
            code == option_code(self),
    {
        match self {
            CaptureOption::AllowVSync => OPTION_ALLOW_VSYNC,
            CaptureOption::AllowFullscreen => OPTION_ALLOW_FULLSCREEN,
            CaptureOption::ApiValidation => OPTION_API_VALIDATION,
            CaptureOption::CaptureCallstacks => OPTION_CAPTURE_CALLSTACKS,
            CaptureOption::CaptureCallstacksOnlyDraws => OPTION_CAPTURE_CALLSTACKS_ONLY_DRAWS,
            CaptureOption::DelayForDebugger => OPTION_DELAY_FOR_DEBUGGER,
            CaptureOption::VerifyMapWrites => OPTION_VERIFY_MAP_WRITES,
            CaptureOption::HookIntoChildren => OPTION_HOOK_INTO_CHILDREN,
            CaptureOption::RefAllResources => OPTION_REF_ALL_RESOURCES,
            CaptureOption::SaveAllInitials => OPTION_SAVE_ALL_INITIALS,
            CaptureOption::CaptureAllCmdLists => OPTION_CAPTURE_ALL_CMD_LISTS,
            CaptureOption::DebugOutputMute => OPTION_DEBUG_OUTPUT_MUTE,
            CaptureOption::AllowUnsupportedVendorExtensions => {
                OPTION_ALLOW_UNSUPPORTED_VENDOR_EXTENSIONS
            },
        }
    }
}

/// No two options share a code.
pub proof fn lemma_option_codes_differ(a: CaptureOption, b: CaptureOption)
    requires
        option_code(a) == option_code(b),
    ensures
        a == b,
{
}

} // verus!
