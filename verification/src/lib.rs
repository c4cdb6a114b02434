//! Verified core of a binding to RenderDoc's in-application API.
//!
//! RenderDoc is a debugger for real-time graphics. Its library lives inside the
//! application that is being debugged and publishes one entry point, which
//! hands out a table of functions for a version of the API that the caller asks
//! for. This crate holds everything of a binding to that API that can be
//! decided without touching the host:
//!
//! * the versions of the API and the order between them ([`version`]),
//! * the loading of the API, with its rule of one live handle ([`loader`]),
//! * the handle itself and its change from version to version
//!   ([`renderdoc`]),
//! * the flags of the overlay ([`overlay_bits`]), the options of a capture
//!   ([`capture_opts`], [`settings`]), the list of captures ([`captures`]) and
//!   the keys that the host listens for ([`input_button`]).
//!
//! Calling into the host is left to the crate that links against it. That
//! crate performs the pieces of work that the loader asks for and passes the
//! host's answers to the functions here.

pub use self::capture_opts::{CaptureCallstacksOption, CaptureOptions, SetCaptureOptions};
pub use self::captures::{Capture, Captures, CapturesIter};
pub use self::error::Error;
pub use self::input_button::{AsInputButtons, InputButton};
pub use self::loader::{load, FunctionTable, Loader};
pub use self::overlay_bits::OverlayBits;
pub use self::renderdoc::RenderDoc;
pub use self::settings::CaptureOption;
pub use self::version::{
    Below, DebugVersion, HasPrevious, Minimum, Version, V100, V101, V102, V110, V111, V112, V120,
    V130, V140, V141, V142, V150, V160,
};

use vstd::prelude::*;

pub mod c_str;
pub mod capture_opts;
pub mod captures;
pub mod error;
pub mod fmt;
pub mod input_button;
pub mod loader;
pub mod overlay_bits;
pub mod renderdoc;
pub mod settings;
pub mod sys;
pub mod version;

verus! {

/// Magic value for applications that pass a path where the debug information of
/// a stripped shader can be found: the raw bytes, in the byte order of x86.
pub const SHADER_MAGIC_DEBUG_VALUE_BYTE_ARRAY: [u8; 16] = [
    0x20, 0x55, 0xb2, 0xea, 0x70, 0x66, 0x65, 0x48, 0x84, 0x29, 0x6c, 0x8, 0x51, 0x54, 0x00, 0xff,
];

/// Magic value for applications that pass a path where the debug information of
/// a stripped shader can be found: the form for where only 64 bits are to be
/// had, as in the tags of Vulkan.
pub const SHADER_MAGIC_DEBUG_VALUE_TRUNCATED: u64 = 0x0485_6670_eab2_5520;

} // verus!
