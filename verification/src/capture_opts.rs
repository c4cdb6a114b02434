//! Reading and writing the options of a capture.
//!
//! Which option a name stands for, which versions have it and how a value is
//! encoded is settled here; talking to the host is not. [`SetCaptureOptions`]
//! collects the writes that its methods ask for, to be sent to the host by
//! whoever holds the function table. [`CaptureOptions`] interprets the values
//! that the host has reported.

use vstd::prelude::*;
use std::marker::PhantomData;
use crate::error::Error;
use crate::sys::{
    OPTION_ACCEPTED,
    OPTION_ALLOW_FULLSCREEN,
    OPTION_ALLOW_VSYNC,
    OPTION_API_VALIDATION,
    OPTION_CAPTURE_ALL_CMD_LISTS,
    OPTION_CAPTURE_CALLSTACKS,
    OPTION_CAPTURE_CALLSTACKS_ONLY_DRAWS,
    OPTION_DEBUG_DEVICE_MODE,
    OPTION_DEBUG_OUTPUT_MUTE,
    OPTION_DELAY_FOR_DEBUGGER,
    OPTION_HOOK_INTO_CHILDREN,
    OPTION_REF_ALL_RESOURCES,
    OPTION_SAVE_ALL_INITIALS,
    OPTION_UNKNOWN,
    OPTION_VERIFY_BUFFER_ACCESS,
    OPTION_VERIFY_MAP_WRITES,
};
use crate::version::{Below, Minimum, V100, V102, V110, V130};

verus! {

/// A possible state of the "capture callstacks" option.
#[derive(Clone, Copy, Debug, PartialEq, Eq, Structural)]
pub enum CaptureCallstacksOption {
    /// No CPU callstack is captured.
    Disabled,
    /// A CPU callstack is captured on every API call.
    Enabled,
    /// A CPU callstack is captured on action calls only: draws, dispatches,
    /// clears, copies and the like. Before version 1.4.2 these were the draw
    /// calls.
    OnlyActions,
}

/// The value that the host takes for a switch.
pub open spec fn flag_value(on: bool) -> u32 {
    if on {
        1
    } else {
        0
    }
}

/// The writes that set the callstack options to `state`.
pub open spec fn callstack_writes(state: CaptureCallstacksOption) -> Seq<(u32, u32)> {
    match state {
        CaptureCallstacksOption::Disabled => seq![(OPTION_CAPTURE_CALLSTACKS, 0u32)],
        CaptureCallstacksOption::Enabled => seq![
            (OPTION_CAPTURE_CALLSTACKS, 1u32),
            (OPTION_CAPTURE_CALLSTACKS_ONLY_DRAWS, 0u32),
        ],
        CaptureCallstacksOption::OnlyActions => seq![
            (OPTION_CAPTURE_CALLSTACKS, 1u32),
            (OPTION_CAPTURE_CALLSTACKS_ONLY_DRAWS, 1u32),
        ],
    }
}

/// Configures how the host behaves on capture.
///
/// A value is the list of writes that were asked for and not yet handed out,
/// oldest first. Each write is an option's code and the value for it.
#[derive(Debug)]
pub struct SetCaptureOptions<V> {
    writes: Vec<(u32, u32)>,
    _min_version: PhantomData<V>,
}

impl<V> View for SetCaptureOptions<V> {
    type V = Seq<(u32, u32)>;

    /// The writes that are due, oldest first.
    closed spec fn view(&self) -> Seq<(u32, u32)> {
        self.writes@
    }
}

impl<V> SetCaptureOptions<V> {
    /// No write is due.
    pub fn new() -> (options: Self)
        ensures
            options@ == Seq::<(u32, u32)>::empty(),
    {
        SetCaptureOptions { writes: Vec::new(), _min_version: PhantomData }
    }

    /// Asks for option `opt` to be set to `val`.
    fn set_u32(&mut self, opt: u32, val: u32)
        ensures
            final(self)@ == old(self)@.push((opt, val)),
    {
        self.writes.push((opt, val));
    }

    /// What the host's `status` for the write of `val` to `opt` comes to.
    pub fn try_set_u32(opt: u32, val: u32, status: i32) -> (outcome: Result<(), Error>)
        ensures
            outcome == if status == OPTION_ACCEPTED {
                Ok::<(), Error>(())
            } else {
                Err::<(), Error>(Error::SetCaptureOptions { option: opt, value: val })
            },
    {
        if status == OPTION_ACCEPTED {
            Ok(())
        } else {
            Err(Error::SetCaptureOptions { option: opt, value: val })
        }
    }

    /// Hands out the writes that are due and forgets them.
    pub fn take_writes(&mut self) -> (writes: Vec<(u32, u32)>)
        ensures
            writes@ == old(self)@,
            final(self)@ == Seq::<(u32, u32)>::empty(),
    {
        let mut writes: Vec<(u32, u32)> = Vec::new();
        std::mem::swap(&mut self.writes, &mut writes);
        writes
    }
}

impl<V: Minimum<V100>> SetCaptureOptions<V> {
    /// Lets the application switch vertical synchronisation on at will (the
    /// default), or keeps it from doing so.
    pub fn allow_vsync(&mut self, allowed: bool) -> (options: &mut Self)
        ensures
            options@ == old(self)@.push((OPTION_ALLOW_VSYNC, flag_value(allowed))),
            *final(self) == *final(options),
    {
        self.set_u32(
            OPTION_ALLOW_VSYNC,
            if allowed {
                1
            } else {
                0
            },
        );
        self
    }

    /// Lets the application go fullscreen at will (the default), or keeps it from
    /// doing so.
    pub fn allow_fullscreen(&mut self, allowed: bool) -> (options: &mut Self)
        ensures
            options@ == old(self)@.push((OPTION_ALLOW_FULLSCREEN, flag_value(allowed))),
            *final(self) == *final(options),
    {
        self.set_u32(
            OPTION_ALLOW_FULLSCREEN,
            if allowed {
                1
            } else {
                0
            },
        );
        self
    }

    /// Says on which API calls a CPU callstack is captured (by default on none).
    pub fn capture_callstacks(&mut self, state: CaptureCallstacksOption) -> (options: &mut Self)
        ensures
            options@ == old(self)@ + callstack_writes(state),
            *final(self) == *final(options),
    {
        match state {
            CaptureCallstacksOption::Disabled => {
                self.set_u32(OPTION_CAPTURE_CALLSTACKS, 0);
            },
            CaptureCallstacksOption::Enabled => {
                self.set_u32(OPTION_CAPTURE_CALLSTACKS, 1);
                self.set_u32(OPTION_CAPTURE_CALLSTACKS_ONLY_DRAWS, 0);
            },
            CaptureCallstacksOption::OnlyActions => {
                self.set_u32(OPTION_CAPTURE_CALLSTACKS, 1);
                self.set_u32(OPTION_CAPTURE_CALLSTACKS_ONLY_DRAWS, 1);
            },
        }
        self
    }

    /// Makes a launched process pause for `seconds` so that a debugger can
    /// attach (by default it does not pause).
    ///
    /// The host counts whole seconds in 32 bits; a longer delay is cut to its
    /// low 32 bits.
    pub fn delay_for_debugger(&mut self, seconds: u64) -> (options: &mut Self)
        ensures
            options@ == old(self)@.push((OPTION_DELAY_FOR_DEBUGGER, delay_value(seconds))),
            *final(self) == *final(options),
    {
        let value: u32 = #[verifier::truncate] (seconds as u32);
        assert(value == (seconds % 0x1_0000_0000) as u32) by (bit_vector)
            requires
                value == seconds as u32,
        ;
        self.set_u32(OPTION_DELAY_FOR_DEBUGGER, value);
        self
    }

    /// Says whether the processes that the application launches are hooked as
    /// well (by default they are not). They inherit the options of their parent.
    pub fn hook_into_children(&mut self, enabled: bool) -> (options: &mut Self)
        ensures
            options@ == old(self)@.push((OPTION_HOOK_INTO_CHILDREN, flag_value(enabled))),
            *final(self) == *final(options),
    {
        self.set_u32(
            OPTION_HOOK_INTO_CHILDREN,
            if enabled {
                1
            } else {
                0
            },
        );
        self
    }

    /// Says whether a capture holds all live resources, also those that the
    /// frame does not use (by default it holds the used ones only).
    pub fn ref_all_resources(&mut self, enabled: bool) -> (options: &mut Self)
        ensures
            options@ == old(self)@.push((OPTION_REF_ALL_RESOURCES, flag_value(enabled))),
            *final(self) == *final(options),
    {
        self.set_u32(
            OPTION_REF_ALL_RESOURCES,
            if enabled {
                1
            } else {
                0
            },
        );
        self
    }

    /// Says whether deferred command lists are recorded from the start, and not
    /// only once a capture is under way (by default they are not).
    ///
    /// APIs that were made for many threads, such as Vulkan and Direct3D 12,
    /// record all command lists whatever this option says.
    pub fn capture_all_command_lists(&mut self, enabled: bool) -> (options: &mut Self)
        ensures
            options@ == old(self)@.push((OPTION_CAPTURE_ALL_CMD_LISTS, flag_value(enabled))),
            *final(self) == *final(options),
    {
        self.set_u32(
            OPTION_CAPTURE_ALL_CMD_LISTS,
            if enabled {
                1
            } else {
                0
            },
        );
        self
    }

    /// Says whether the API's debug output is muted while API validation is on
    /// (by default it is).
    pub fn mute_debug_output(&mut self, enabled: bool) -> (options: &mut Self)
        ensures
            options@ == old(self)@.push((OPTION_DEBUG_OUTPUT_MUTE, flag_value(enabled))),
            *final(self) == *final(options),
    {
        self.set_u32(
            OPTION_DEBUG_OUTPUT_MUTE,
            if enabled {
                1
            } else {
                0
            },
        );
        self
    }
}

impl<V: Minimum<V100> + Below<V102>> SetCaptureOptions<V> {
    /// Says whether the graphics API starts with its own validation switched on
    /// (by default it does not).
    ///
    /// From version 1.0.2 on the option is called
    /// [`api_validation`](SetCaptureOptions::api_validation).
    pub fn debug_device_mode(&mut self, enabled: bool) -> (options: &mut Self)
        ensures
            options@ == old(self)@.push((OPTION_DEBUG_DEVICE_MODE, flag_value(enabled))),
            *final(self) == *final(options),
    {
        self.set_u32(
            OPTION_DEBUG_DEVICE_MODE,
            if enabled {
                1
            } else {
                0
            },
        );
        self
    }
}

impl<V: Minimum<V100> + Below<V110>> SetCaptureOptions<V> {
    /// Says whether the initial contents of all resources are saved at the start
    /// of each frame, also of those that are overwritten before they are used (by
    /// default they are not).
    ///
    /// From version 1.1.0 on the host always saves them.
    pub fn save_all_initials(&mut self, enabled: bool) -> (options: &mut Self)
        ensures
            options@ == old(self)@.push((OPTION_SAVE_ALL_INITIALS, flag_value(enabled))),
            *final(self) == *final(options),
    {
        self.set_u32(
            OPTION_SAVE_ALL_INITIALS,
            if enabled {
                1
            } else {
                0
            },
        );
        self
    }
}

impl<V: Minimum<V100> + Below<V130>> SetCaptureOptions<V> {
    /// Says whether writes to mapped buffers are checked (by default they are
    /// not).
    ///
    /// From version 1.3.0 on the option is called
    /// [`verify_buffer_access`](SetCaptureOptions::verify_buffer_access).
    pub fn verify_map_writes(&mut self, enabled: bool) -> (options: &mut Self)
        ensures
            options@ == old(self)@.push((OPTION_VERIFY_MAP_WRITES, flag_value(enabled))),
            *final(self) == *final(options),
    {
        self.set_u32(
            OPTION_VERIFY_MAP_WRITES,
            if enabled {
                1
            } else {
                0
            },
        );
        self
    }
}

impl<V: Minimum<V102>> SetCaptureOptions<V> {
    /// Says whether the graphics API starts with its own validation switched on
    /// (by default it does not).
    ///
    /// Before version 1.0.2 the option was called
    /// [`debug_device_mode`](SetCaptureOptions::debug_device_mode).
    pub fn api_validation(&mut self, enabled: bool) -> (options: &mut Self)
        ensures
            options@ == old(self)@.push((OPTION_API_VALIDATION, flag_value(enabled))),
            *final(self) == *final(options),
    {
        self.set_u32(
            OPTION_API_VALIDATION,
            if enabled {
                1
            } else {
                0
            },
        );
        self
    }
}

impl<V: Minimum<V130>> SetCaptureOptions<V> {
    /// Says whether accesses to mapped buffers are checked for overruns, and
    /// fresh buffers filled with a marker value (by default they are not).
    ///
    /// Before version 1.3.0 the option was called
    /// [`verify_map_writes`](SetCaptureOptions::verify_map_writes).
    pub fn verify_buffer_access(&mut self, enabled: bool) -> (options: &mut Self)
        ensures
            options@ == old(self)@.push((OPTION_VERIFY_BUFFER_ACCESS, flag_value(enabled))),
            *final(self) == *final(options),
    {
        self.set_u32(
            OPTION_VERIFY_BUFFER_ACCESS,
            if enabled {
                1
            } else {
                0
            },
        );
        self
    }
}

/// The value that the host is given for a delay of `seconds`.
pub open spec fn delay_value(seconds: u64) -> u32 {
    (seconds % 0x1_0000_0000) as u32
}

/// The values of the capture options, as the host has reported them.
///
/// A value holds one number for each option code from 0 on. The host reports
/// [`OPTION_UNKNOWN`] for an option that it does not have; an option beyond the
/// numbers held counts as unknown too.
#[derive(Debug)]
pub struct CaptureOptions<V> {
    values: Vec<u32>,
    _min_version: PhantomData<V>,
}

impl<V> View for CaptureOptions<V> {
    type V = Seq<u32>;

    /// The reported values, by option code.
    closed spec fn view(&self) -> Seq<u32> {
        self.values@
    }
}

/// What `values` hold for option `opt`.
pub open spec fn reported(values: Seq<u32>, opt: u32) -> u32 {
    if opt < values.len() {
        values[opt as int]
    } else {
        OPTION_UNKNOWN
    }
}

/// Whether `values` hold a value for option `opt`.
pub open spec fn known(values: Seq<u32>, opt: u32) -> bool {
    reported(values, opt) != OPTION_UNKNOWN
}

/// The state of the callstack options in `values`.
pub open spec fn callstacks_state(values: Seq<u32>) -> CaptureCallstacksOption {
    if reported(values, OPTION_CAPTURE_CALLSTACKS) == 1 {
        if reported(values, OPTION_CAPTURE_CALLSTACKS_ONLY_DRAWS) == 1 {
            CaptureCallstacksOption::OnlyActions
        } else {
            CaptureCallstacksOption::Enabled
        }
    } else {
        CaptureCallstacksOption::Disabled
    }
}

impl<V> CaptureOptions<V> {
    /// Takes the values that the host has reported, the one of option code `i`
    /// at index `i`.
    pub fn new(values: Vec<u32>) -> (options: Self)
        ensures
            options@ == values@,
    {
        CaptureOptions { values, _min_version: PhantomData }
    }

    /// The value of option `opt`, or the error that the host does not know it.
    pub fn try_get_u32(&self, opt: u32) -> (value: Result<u32, Error>)
        ensures
            value == if known(self@, opt) {
                Ok::<u32, Error>(reported(self@, opt))
            } else {
                Err::<u32, Error>(Error::GetCaptureOptions { option: opt })
            },
    {
        if (opt as usize) < self.values.len() {
            let value: u32 = self.values[opt as usize];
            if value != OPTION_UNKNOWN {
                return Ok(value);
            }
        }
        Err(Error::GetCaptureOptions { option: opt })
    }

    /// The value of option `opt`, which the host has to know.
    pub fn get_u32(&self, opt: u32) -> (value: u32)
        requires
            known(self@, opt),
        ensures
            value == reported(self@, opt),
    {
        self.values[opt as usize]
    }
}

impl<V: Minimum<V100>> CaptureOptions<V> {
    /// Whether the application may switch vertical synchronisation on at will.
    pub fn allow_vsync(&self) -> (on: bool)
        requires
            known(self@, OPTION_ALLOW_VSYNC),
        ensures
            on == (reported(self@, OPTION_ALLOW_VSYNC) == 1),
    {
        self.get_u32(OPTION_ALLOW_VSYNC) == 1
    }

    /// Whether the application may go fullscreen at will.
    pub fn allow_fullscreen(&self) -> (on: bool)
        requires
            known(self@, OPTION_ALLOW_FULLSCREEN),
        ensures
            on == (reported(self@, OPTION_ALLOW_FULLSCREEN) == 1),
    {
        self.get_u32(OPTION_ALLOW_FULLSCREEN) == 1
    }

    /// On which API calls a CPU callstack is captured.
    pub fn capture_callstacks(&self) -> (state: CaptureCallstacksOption)
        requires
            known(self@, OPTION_CAPTURE_CALLSTACKS),
            reported(self@, OPTION_CAPTURE_CALLSTACKS) == 1 ==> known(
                self@,
                OPTION_CAPTURE_CALLSTACKS_ONLY_DRAWS,
            ),
        ensures
            state == callstacks_state(self@),
    {
        if self.get_u32(OPTION_CAPTURE_CALLSTACKS) == 1 {
            if self.get_u32(OPTION_CAPTURE_CALLSTACKS_ONLY_DRAWS) == 1 {
                CaptureCallstacksOption::OnlyActions
            } else {
                CaptureCallstacksOption::Enabled
            }
        } else {
            CaptureCallstacksOption::Disabled
        }
    }

    /// For how many seconds a launched process pauses so that a debugger can
    /// attach.
    pub fn delay_for_debugger(&self) -> (seconds: u64)
        requires
            known(self@, OPTION_DELAY_FOR_DEBUGGER),
        ensures
            seconds == reported(self@, OPTION_DELAY_FOR_DEBUGGER),
    {
        let seconds: u32 = self.get_u32(OPTION_DELAY_FOR_DEBUGGER);
        seconds as u64
    }

    /// Whether the processes that the application launches are hooked as well.
    pub fn hook_into_children(&self) -> (on: bool)
        requires
            known(self@, OPTION_HOOK_INTO_CHILDREN),
        ensures
            on == (reported(self@, OPTION_HOOK_INTO_CHILDREN) == 1),
    {
        self.get_u32(OPTION_HOOK_INTO_CHILDREN) == 1
    }

    /// Whether a capture holds all live resources, also those that the frame does
    /// not use.
    pub fn ref_all_resources(&self) -> (on: bool)
        requires
            known(self@, OPTION_REF_ALL_RESOURCES),
        ensures
            on == (reported(self@, OPTION_REF_ALL_RESOURCES) == 1),
    {
        self.get_u32(OPTION_REF_ALL_RESOURCES) == 1
    }

    /// Whether deferred command lists are recorded from the start.
    pub fn capture_all_command_lists(&self) -> (on: bool)
        requires
            known(self@, OPTION_CAPTURE_ALL_CMD_LISTS),
        ensures
            on == (reported(self@, OPTION_CAPTURE_ALL_CMD_LISTS) == 1),
    {
        self.get_u32(OPTION_CAPTURE_ALL_CMD_LISTS) == 1
    }

    /// Whether the API's debug output is muted while API validation is on.
    pub fn mute_debug_output(&self) -> (on: bool)
        requires
            known(self@, OPTION_DEBUG_OUTPUT_MUTE),
        ensures
            on == (reported(self@, OPTION_DEBUG_OUTPUT_MUTE) == 1),
    {
        self.get_u32(OPTION_DEBUG_OUTPUT_MUTE) == 1
    }
}

impl<V: Minimum<V100> + Below<V102>> CaptureOptions<V> {
    /// Whether the graphics API was started with its own validation switched on.
    ///
    /// From version 1.0.2 on the option is called
    /// [`api_validation`](CaptureOptions::api_validation).
    pub fn debug_device_mode(&self) -> (on: bool)
        requires
            known(self@, OPTION_DEBUG_DEVICE_MODE),
        ensures
            on == (reported(self@, OPTION_DEBUG_DEVICE_MODE) == 1),
    {
        self.get_u32(OPTION_DEBUG_DEVICE_MODE) == 1
    }
}

impl<V: Minimum<V100> + Below<V110>> CaptureOptions<V> {
    /// Whether the initial contents of all resources are saved at the start of
    /// each frame.
    ///
    /// From version 1.1.0 on the host always saves them.
    pub fn save_all_initials(&self) -> (on: bool)
        requires
            known(self@, OPTION_SAVE_ALL_INITIALS),
        ensures
            on == (reported(self@, OPTION_SAVE_ALL_INITIALS) == 1),
    {
        self.get_u32(OPTION_SAVE_ALL_INITIALS) == 1
    }
}

impl<V: Minimum<V100> + Below<V130>> CaptureOptions<V> {
    /// Whether writes to mapped buffers are checked.
    ///
    /// From version 1.3.0 on the option is called
    /// [`verify_buffer_access`](CaptureOptions::verify_buffer_access).
    pub fn verify_map_writes(&self) -> (on: bool)
        requires
            known(self@, OPTION_VERIFY_MAP_WRITES),
        ensures
            on == (reported(self@, OPTION_VERIFY_MAP_WRITES) == 1),
    {
        self.get_u32(OPTION_VERIFY_MAP_WRITES) == 1
    }
}

impl<V: Minimum<V102>> CaptureOptions<V> {
    /// Whether the graphics API was started with its own validation switched on.
    ///
    /// Before version 1.0.2 the option was called
    /// [`debug_device_mode`](CaptureOptions::debug_device_mode).
    pub fn api_validation(&self) -> (on: bool)
        requires
            known(self@, OPTION_API_VALIDATION),
        ensures
            on == (reported(self@, OPTION_API_VALIDATION) == 1),
    {
        self.get_u32(OPTION_API_VALIDATION) == 1
    }
}

impl<V: Minimum<V130>> CaptureOptions<V> {
    /// Whether accesses to mapped buffers are checked.
    ///
    /// Before version 1.3.0 the option was called
    /// [`verify_map_writes`](CaptureOptions::verify_map_writes).
    pub fn verify_buffer_access(&self) -> (on: bool)
        requires
            known(self@, OPTION_VERIFY_BUFFER_ACCESS),
        ensures
            on == (reported(self@, OPTION_VERIFY_BUFFER_ACCESS) == 1),
    {
        self.get_u32(OPTION_VERIFY_BUFFER_ACCESS) == 1
    }
}

} // verus!
