//! Numeric constants of the host's C interface.

use vstd::prelude::*;

verus! {

/// Code of API version 1.0.0.
pub const API_VERSION_1_0_0: u32 = 10000;

/// Code of API version 1.0.1.
pub const API_VERSION_1_0_1: u32 = 10001;

/// Code of API version 1.0.2.
pub const API_VERSION_1_0_2: u32 = 10002;

/// Code of API version 1.1.0.
pub const API_VERSION_1_1_0: u32 = 10100;

/// Code of API version 1.1.1.
pub const API_VERSION_1_1_1: u32 = 10101;

/// Code of API version 1.1.2.
pub const API_VERSION_1_1_2: u32 = 10102;

/// Code of API version 1.2.0.
pub const API_VERSION_1_2_0: u32 = 10200;

/// Code of API version 1.3.0.
pub const API_VERSION_1_3_0: u32 = 10300;

/// Code of API version 1.4.0.
pub const API_VERSION_1_4_0: u32 = 10400;

/// Code of API version 1.4.1.
pub const API_VERSION_1_4_1: u32 = 10401;

/// Code of API version 1.4.2.
pub const API_VERSION_1_4_2: u32 = 10402;

/// Code of API version 1.5.0.
pub const API_VERSION_1_5_0: u32 = 10500;

/// Code of API version 1.6.0.
pub const API_VERSION_1_6_0: u32 = 10600;

/// Overlay flag: the overlay is shown at all.
pub const OVERLAY_ENABLED: u32 = 0x1;

/// Overlay flag: the frame rate and the frame times are shown.
pub const OVERLAY_FRAME_RATE: u32 = 0x2;

/// Overlay flag: the number of the current frame is shown.
pub const OVERLAY_FRAME_NUMBER: u32 = 0x4;

/// Overlay flag: the recent captures are listed.
pub const OVERLAY_CAPTURE_LIST: u32 = 0x8;

/// The overlay flags that are set at startup.
pub const OVERLAY_DEFAULT: u32 = 0xf;

/// Every bit of the overlay mask.
pub const OVERLAY_ALL: u32 = 0xffff_ffff;

/// No bit of the overlay mask.
pub const OVERLAY_NONE: u32 = 0;

/// Capture option: the application may switch vertical synchronisation on.
pub const OPTION_ALLOW_VSYNC: u32 = 0;

/// Capture option: the application may go fullscreen.
pub const OPTION_ALLOW_FULLSCREEN: u32 = 1;

/// Capture option: the graphics API runs with its own validation.
pub const OPTION_API_VALIDATION: u32 = 2;

/// Capture option: the name of [`OPTION_API_VALIDATION`] before version 1.0.2.
pub const OPTION_DEBUG_DEVICE_MODE: u32 = 2;

/// Capture option: a CPU callstack is kept for every API call.
pub const OPTION_CAPTURE_CALLSTACKS: u32 = 3;

/// Capture option: callstacks are kept for action calls only.
pub const OPTION_CAPTURE_CALLSTACKS_ONLY_DRAWS: u32 = 4;

/// Capture option: seconds to wait for a debugger after a launch.
pub const OPTION_DELAY_FOR_DEBUGGER: u32 = 5;

/// Capture option: accesses to mapped buffers are checked.
pub const OPTION_VERIFY_BUFFER_ACCESS: u32 = 6;

/// Capture option: the name of [`OPTION_VERIFY_BUFFER_ACCESS`] before version 1.3.0.
pub const OPTION_VERIFY_MAP_WRITES: u32 = 6;

/// Capture option: child processes are hooked as well.
pub const OPTION_HOOK_INTO_CHILDREN: u32 = 7;

/// Capture option: a capture holds every live resource.
pub const OPTION_REF_ALL_RESOURCES: u32 = 8;

/// Capture option: the initial contents of all resources are saved.
pub const OPTION_SAVE_ALL_INITIALS: u32 = 9;

/// Capture option: deferred command lists are recorded from the start.
pub const OPTION_CAPTURE_ALL_CMD_LISTS: u32 = 10;

/// Capture option: the API's debug output is muted.
pub const OPTION_DEBUG_OUTPUT_MUTE: u32 = 11;

/// Capture option: vendor extensions that the host does not support stay usable.
pub const OPTION_ALLOW_UNSUPPORTED_VENDOR_EXTENSIONS: u32 = 12;

/// What the host returns for the value of an option that it does not know.
pub const OPTION_UNKNOWN: u32 = 0xffff_ffff;

/// The status with which the host accepts an option and its value.
pub const OPTION_ACCEPTED: i32 = 1;

} // verus!
