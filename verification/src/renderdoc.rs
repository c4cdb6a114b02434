//! The handle to the API, typed by the version that it was loaded for.

use vstd::prelude::*;
use std::marker::PhantomData;
use crate::error::Error;
use crate::loader::{
    action_view,
    idle,
    load,
    load_spec,
    result_view,
    step_spec,
    unload_spec,
    Action,
    Event,
    FunctionTable,
    Loader,
    Replies,
};
use crate::capture_opts::{CaptureOptions, SetCaptureOptions};
use crate::captures::{Capture, Captures};
use crate::overlay_bits::OverlayBits;
use crate::sys::OVERLAY_DEFAULT;
use crate::version::{version_code, Below, HasPrevious, Minimum, Version, V100, V111, V140};

verus! {

/// The API of the host, with `V` as the oldest version that it is known to
/// speak.
///
/// A handle owns the function table of a successful load and with it the only
/// permission to call into the host. The marker decides which operations are on
/// offer; changing it costs nothing and leaves the table alone.
#[derive(Debug)]
pub struct RenderDoc<V> {
    api: FunctionTable,
    _min_version: PhantomData<V>,
}

impl<V> View for RenderDoc<V> {
    type V = usize;

    /// The address of the function table.
    closed spec fn view(&self) -> usize {
        self.api@
    }
}

/// Whether a host that reports version `reported` speaks version `U`.
pub open spec fn speaks<U: Version>(reported: (u32, u32, u32)) -> bool {
    U::VERSION <= version_code(reported.0 as nat, reported.1 as nat, reported.2 as nat)
}

impl<V> RenderDoc<V> {
    /// The same handle under the marker `U`.
    pub closed spec fn retag<U>(self) -> RenderDoc<U> {
        RenderDoc { api: self.api, _min_version: PhantomData }
    }

    /// What [`RenderDoc::try_upgrade`] returns.
    pub open spec fn try_upgrade_spec<U: Version>(self, reported: (u32, u32, u32)) -> Result<
        RenderDoc<U>,
        RenderDoc<V>,
    > {
        if speaks::<U>(reported) {
            Ok(self.retag::<U>())
        } else {
            Err(self)
        }
    }

    /// A change of marker keeps the address of the table.
    pub proof fn lemma_retag_keeps_table<U>(self)
        ensures
            self.retag::<U>()@ == self@,
    {
    }

    /// Changing the marker twice is changing it once; changing it to what it
    /// was changes nothing.
    pub proof fn lemma_retag_twice<T, U>(self)
        ensures
            self.retag::<T>().retag::<U>() == self.retag::<U>(),
            self.retag::<V>() == self,
    {
    }

    /// The address of the function table.
    ///
    /// Calls made through a copy of it take place beside the handle: nothing
    /// keeps them from running after the handle has gone.
    pub fn raw_api(&self) -> (api: usize)
        ensures
            api == self@,
    {
        self.api.inner()
    }

    /// Gives up the handle and hands out its function table.
    pub fn into_table(self) -> (table: FunctionTable)
        ensures
            table@ == self@,
    {
        self.api
    }

    /// Ends the handle and frees its place at once, for a host whose hooks are
    /// being removed.
    ///
    /// The host takes its hooks out only if nothing else of the API was called
    /// before; nothing here can tell whether that is so.
    pub fn shutdown(self, loader: &mut Loader)
        ensures
            final(loader)@ == unload_spec(old(loader)@),
    {
        loader.unload(self.api);
    }

    /// The handle under an older marker.
    pub fn downgrade_to<U: Version>(self) -> (older: RenderDoc<U>) where V: Minimum<U>
        ensures
            older == self.retag::<U>(),
            older@ == self@,
    {
        RenderDoc { api: self.api, _min_version: PhantomData }
    }

    /// The handle under the newer marker `U`, if the host reports a version
    /// that is `U` or newer; the untouched handle if it does not.
    ///
    /// `reported` is what the host's version query has answered: major, minor
    /// and patch.
    pub fn try_upgrade<U: Minimum<V>>(self, reported: (u32, u32, u32)) -> (upgraded: Result<
        RenderDoc<U>,
        RenderDoc<V>,
    >) where V: Version
        ensures
            upgraded == self.try_upgrade_spec::<U>(reported),
            upgraded is Ok <==> speaks::<U>(reported),
            upgraded matches Ok(newer) ==> newer@ == self@,
            upgraded matches Err(same) ==> same == self,
    {
        let actual: u64 = reported.0 as u64 * 10_000 + reported.1 as u64 * 100 + reported.2 as u64;
        if U::VERSION as u64 <= actual {
            Ok(RenderDoc { api: self.api, _min_version: PhantomData })
        } else {
            Err(self)
        }
    }
}

impl<V: Version> RenderDoc<V> {
    /// Loads version `V` of the API in one go, with `replies` for what the
    /// platform and the host answer.
    ///
    /// No other load may be in the middle of its steps: see
    /// [`Loader::is_idle`].
    pub fn new(loader: &mut Loader, replies: &Replies) -> (handle: Result<Self, Error>)
        requires
            idle(old(loader)@),
        ensures
            (final(loader)@, result_view(handle)) == load_spec(
                old(loader)@,
                V::VERSION,
                *replies,
            ),
            idle(final(loader)@),
    {
        match load(loader, V::VERSION, replies) {
            Ok(api) => Ok(RenderDoc { api, _min_version: PhantomData }),
            Err(e) => Err(e),
        }
    }

    /// One step of a load of version `V`: takes note of `event` and says what
    /// is to be done next, or hands out the handle.
    pub fn load_step(loader: &mut Loader, event: Event) -> (action: Action<Self>)
        ensures
            (final(loader)@, action_view(action)) == step_spec(old(loader)@, V::VERSION, event),
    {
        match loader.step(V::VERSION, event) {
            Action::MapLibrary => Action::MapLibrary,
            Action::ResolveSymbol => Action::ResolveSymbol,
            Action::CallEntry { version } => Action::CallEntry { version },
            Action::Wait => Action::Wait,
            Action::Finished(Ok(api)) => Action::Finished(
                Ok(RenderDoc { api, _min_version: PhantomData }),
            ),
            Action::Finished(Err(e)) => Action::Finished(Err(e)),
        }
    }
}

/// A number of the host's `int` read as unsigned: a negative one counts from
/// the top of the 32 bits.
pub open spec fn unsigned(n: i32) -> u32 {
    if n >= 0 {
        n as u32
    } else {
        (n + 0x1_0000_0000) as u32
    }
}

/// Reading a number as unsigned is what a cast to 32 unsigned bits does.
proof fn lemma_unsigned(n: i32)
    by (bit_vector)
    ensures
        n as u32 == unsigned(n),
{
}

/// What the host means by a yes.
pub const REPLY_YES: u32 = 1;

/// What the host returns in place of a process id when the replay UI did not
/// start.
pub const NO_PROCESS: u32 = 0;

/// What the host's answers mean. Each of these takes what the host has
/// returned from the call of the same name and is on offer for the versions
/// that have the call.
impl<V: Minimum<V100>> RenderDoc<V> {
    /// The version that the host reports for itself, from the three numbers
    /// that its version query has written.
    ///
    /// It is the version of the newest API that the host speaks, mostly above
    /// the one that was asked for.
    pub fn get_api_version(&self, major: i32, minor: i32, patch: i32) -> (reported: (
        u32,
        u32,
        u32,
    ))
        ensures
            reported == (unsigned(major), unsigned(minor), unsigned(patch)),
    {
        proof {
            lemma_unsigned(major);
            lemma_unsigned(minor);
            lemma_unsigned(patch);
        }
        (
            #[verifier::truncate] (major as u32),
            #[verifier::truncate] (minor as u32),
            #[verifier::truncate] (patch as u32),
        )
    }

    /// The elements of the overlay that are shown, from the mask that the host
    /// has returned; bits that stand for no flag are dropped.
    pub fn get_overlay_bits(&self, mask: u32) -> (flags: OverlayBits<V>)
        ensures
            flags@ == mask & OVERLAY_DEFAULT,
    {
        OverlayBits::from_bits_truncate(mask)
    }

    /// The process id of the replay UI that was launched, or the error that
    /// none was.
    pub fn launch_replay_ui(&self, pid: u32) -> (launched: Result<u32, Error>)
        ensures
            launched == if pid == NO_PROCESS {
                Err::<u32, Error>(Error::LaunchReplayUi)
            } else {
                Ok::<u32, Error>(pid)
            },
    {
        if pid == NO_PROCESS {
            Err(Error::LaunchReplayUi)
        } else {
            Ok(pid)
        }
    }

    /// Whether a frame capture is going on anywhere.
    pub fn is_frame_capturing(&self, reply: u32) -> (capturing: bool)
        ensures
            capturing == (reply == REPLY_YES),
    {
        reply == REPLY_YES
    }

    /// The writes to the capture options that this handle's version has.
    pub fn set_capture_options(&mut self) -> (options: SetCaptureOptions<V>)
        ensures
            options@ == Seq::<(u32, u32)>::empty(),
            *final(self) == *old(self),
    {
        SetCaptureOptions::new()
    }

    /// The capture options of this handle's version, from the values that the
    /// host has reported for the option codes from 0 on.
    pub fn capture_options(&self, values: Vec<u32>) -> (options: CaptureOptions<V>)
        ensures
            options@ == values@,
    {
        CaptureOptions::new(values)
    }

    /// The list of captures, from what the host has reported of each.
    pub fn captures(&self, entries: Vec<Capture>) -> (captures: Captures<V>)
        ensures
            captures@ == entries@,
    {
        Captures::new(entries)
    }
}

impl<V: Minimum<V100> + Below<V111>> RenderDoc<V> {
    /// Whether the UI is connected to this application.
    ///
    /// From version 1.1.1 on this is called
    /// [`is_target_control_connected`](RenderDoc::is_target_control_connected).
    pub fn is_remote_access_connected(&self, reply: u32) -> (connected: bool)
        ensures
            connected == (reply == REPLY_YES),
    {
        reply == REPLY_YES
    }
}

impl<V: Minimum<V111>> RenderDoc<V> {
    /// Whether the UI is connected to this application.
    ///
    /// Before version 1.1.1 this was called
    /// [`is_remote_access_connected`](RenderDoc::is_remote_access_connected).
    pub fn is_target_control_connected(&self, reply: u32) -> (connected: bool)
        ensures
            connected == (reply == REPLY_YES),
    {
        reply == REPLY_YES
    }
}

impl<V: Minimum<V140>> RenderDoc<V> {
    /// Whether a capture was under way and has been discarded.
    pub fn discard_frame_capture(&self, reply: u32) -> (discarded: bool)
        ensures
            discarded == (reply == REPLY_YES),
    {
        reply == REPLY_YES
    }
}

impl<V: HasPrevious> RenderDoc<V> {
    /// The handle under the marker of the version just before `V`.
    pub fn downgrade(self) -> (older: RenderDoc<V::Previous>)
        ensures
            older == self.retag::<V::Previous>(),
            older@ == self@,
    {
        RenderDoc { api: self.api, _min_version: PhantomData }
    }
}

/// A handle that was taken one version down comes back as it was, table and
/// all, when it is taken up again and the host reports its version or a newer
/// one.
pub proof fn lemma_downgrade_then_upgrade<V: HasPrevious>(
    handle: RenderDoc<V>,
    reported: (u32, u32, u32),
)
    requires
        speaks::<V>(reported),
    ensures
        handle.retag::<V::Previous>().try_upgrade_spec::<V>(reported) == Ok::<
            RenderDoc<V>,
            RenderDoc<V::Previous>,
        >(handle),
{
    handle.lemma_retag_twice::<V::Previous, V>();
}

/// No handle goes up to a version that the host does not report: the upgrade
/// fails and gives back the handle that it was called on.
pub proof fn lemma_upgrade_beyond_host<V: Version, U: Minimum<V>>(
    handle: RenderDoc<V>,
    reported: (u32, u32, u32),
)
    requires
        U::VERSION > version_code(reported.0 as nat, reported.1 as nat, reported.2 as nat),
    ensures
        handle.try_upgrade_spec::<U>(reported) == Err::<RenderDoc<U>, RenderDoc<V>>(handle),
{
}

} // verus!
