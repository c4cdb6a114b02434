//! The frame captures that the host has made.

use vstd::prelude::*;
use vstd::string::StringSliceAdditionalSpecFns;
use std::marker::PhantomData;
use crate::c_str::{c_string, has_nul, terminated};
use crate::error::Error;
use crate::version::{Minimum, V100, V120};

verus! {

/// A frame capture that was saved to disk.
#[derive(Debug)]
pub struct Capture {
    /// The path of the capture file. The file may be gone: captures that were
    /// deleted in the UI stay in the list.
    pub path: String,
    /// When the capture was taken, in seconds since the Unix epoch.
    pub timestamp: u64,
}

impl Clone for Capture {
    fn clone(&self) -> (copy: Self)
        ensures
            copy == *self,
    {
        Capture { path: self.path.clone(), timestamp: self.timestamp }
    }
}

/// The list of the frame captures that the host has made, oldest first.
///
/// The host numbers its captures with 32 bits, so an index beyond that finds
/// nothing.
pub struct Captures<V> {
    entries: Vec<Capture>,
    _min_version: PhantomData<V>,
}

impl<V> View for Captures<V> {
    type V = Seq<Capture>;

    /// The captures, by index.
    closed spec fn view(&self) -> Seq<Capture> {
        self.entries@
    }
}

/// The capture that the list `captures` has at `index`, if any.
pub open spec fn capture_at(captures: Seq<Capture>, index: int) -> Option<Capture> {
    if 0 <= index < captures.len() && index <= u32::MAX {
        Some(captures[index])
    } else {
        None
    }
}

/// How many of `num_captures` captures are left from index `next_index` on.
pub open spec fn remaining(num_captures: int, next_index: int) -> int {
    if next_index < num_captures {
        num_captures - next_index
    } else {
        0
    }
}

/// How many of `num_captures` captures an iterator has yet to visit when
/// `next_index` is the index that it visits next.
pub fn remaining_len(num_captures: usize, next_index: usize) -> (left: usize)
    ensures
        left == remaining(num_captures as int, next_index as int),
{
    num_captures.saturating_sub(next_index)
}

impl<V> Captures<V> {
    /// The list of the captures that the host has reported, in its order.
    pub fn new(entries: Vec<Capture>) -> (captures: Self)
        ensures
            captures@ == entries@,
    {
        Captures { entries, _min_version: PhantomData }
    }
}

impl<V: Minimum<V100>> Captures<V> {
    /// The number of captures that have been made.
    pub fn len(&self) -> (count: usize)
        ensures
            count == self@.len(),
    {
        self.entries.len()
    }

    /// The capture with the given index; the first one has index 0.
    pub fn get(&self, index: usize) -> (capture: Option<Capture>)
        ensures
            capture == capture_at(self@, index as int),
    {
        if index > u32::MAX as usize || index >= self.entries.len() {
            None
        } else {
            Some(self.entries[index].clone())
        }
    }

    /// An iterator over all captures, from the first one on.
    pub fn iter(&self) -> (cursor: CapturesIter<'_, V>)
        ensures
            cursor.captures() == self@,
            cursor.position() == 0,
    {
        CapturesIter { caps: MaybeBorrowed::Borrowed(self), index: 0 }
    }

    /// The path template for new captures as the host takes it, or the error
    /// that the path is not UTF-8.
    ///
    /// `path_template` is the path as text, or nothing where the path is not
    /// valid UTF-8. The text holds no zero.
    pub fn set_path_template(path_template: Option<&str>) -> (encoded: Result<Vec<u8>, Error>)
        requires
            path_template matches Some(text) ==> !has_nul(text.spec_bytes()),
        ensures
            path_template is None ==> encoded == Err::<Vec<u8>, Error>(Error::NonUtf8Path),
            path_template matches Some(text) ==> (encoded matches Ok(bytes) && bytes@
                == terminated(text.spec_bytes())),
    {
        match path_template {
            None => Err(Error::NonUtf8Path),
            Some(text) => match c_string(text) {
                Some(bytes) => Ok(bytes),
                None => Err(Error::NonUtf8Path),
            },
        }
    }

    /// The path of a capture file and the comments for it as the host takes
    /// them, or the error that the path is not UTF-8.
    ///
    /// `capture_file` is the path as text, or nothing where the path is not
    /// valid UTF-8; with an empty path the host takes the latest capture.
    /// Neither text holds a zero.
    pub fn set_comments(capture_file: Option<&str>, comments: &str) -> (encoded: Result<
        (Vec<u8>, Vec<u8>),
        Error,
    >) where V: Minimum<V120>
        requires
            capture_file matches Some(text) ==> !has_nul(text.spec_bytes()) && !has_nul(
                comments.spec_bytes(),
            ),
        ensures
            capture_file is None ==> encoded == Err::<(Vec<u8>, Vec<u8>), Error>(
                Error::NonUtf8Path,
            ),
            capture_file matches Some(text) ==> (encoded matches Ok(pair) && pair.0@
                == terminated(text.spec_bytes()) && pair.1@ == terminated(
                comments.spec_bytes(),
            )),
    {
        match capture_file {
            None => Err(Error::NonUtf8Path),
            Some(text) => match (c_string(text), c_string(comments)) {
                (Some(path), Some(comments)) => Ok((path, comments)),
                _ => Err(Error::NonUtf8Path),
            },
        }
    }

    /// An iterator over all captures that keeps the list for itself.
    pub fn into_iter<'a>(self) -> (cursor: CapturesIter<'a, V>)
        ensures
            cursor.captures() == self@,
            cursor.position() == 0,
    {
        CapturesIter { caps: MaybeBorrowed::Owned(self), index: 0 }
    }
}

/// A value that is either somebody else's or one's own.
enum MaybeBorrowed<'a, T> {
    Borrowed(&'a T),
    Owned(T),
}

impl<'a, T> MaybeBorrowed<'a, T> {
    /// The value, whoever owns it.
    spec fn value(self) -> T {
        match self {
            MaybeBorrowed::Borrowed(value) => *value,
            MaybeBorrowed::Owned(value) => value,
        }
    }

    /// The value, whoever owns it.
    fn get(&self) -> (value: &T)
        ensures
            *value == self.value(),
    {
        match self {
            MaybeBorrowed::Borrowed(value) => value,
            MaybeBorrowed::Owned(value) => value,
        }
    }
}

/// A walk through the captures of a list, from some index on.
pub struct CapturesIter<'a, V> {
    caps: MaybeBorrowed<'a, Captures<V>>,
    index: usize,
}

impl<'a, V: Minimum<V100>> CapturesIter<'a, V> {
    /// The list that is walked through.
    pub closed spec fn captures(&self) -> Seq<Capture> {
        self.caps.value()@
    }

    /// The index of the capture that comes next.
    pub closed spec fn position(&self) -> int {
        self.index as int
    }

    /// The next capture, if there is one; the walk then moves on by one.
    pub fn next(&mut self) -> (capture: Option<Capture>)
        ensures
            capture == capture_at(old(self).captures(), old(self).position()),
            final(self).captures() == old(self).captures(),
            final(self).position() == old(self).position() + if capture is Some {
                1int
            } else {
                0int
            },
    {
        let count: usize = self.caps.get().len();
        match self.caps.get().get(self.index) {
            Some(capture) => {
                assert(self.index < count);
                self.index += 1;
                Some(capture)
            },
            None => None,
        }
    }

    /// The number of captures that are left, as a lower bound without an upper
    /// one.
    pub fn size_hint(&self) -> (bounds: (usize, Option<usize>))
        ensures
            bounds.0 == remaining(self.captures().len() as int, self.position()),
            bounds.1 is None,
    {
        (remaining_len(self.caps.get().len(), self.index), None)
    }

    /// The number of captures that are left.
    pub fn count(self) -> (left: usize)
        ensures
            left == remaining(self.captures().len() as int, self.position()),
    {
        remaining_len(self.caps.get().len(), self.index)
    }

    /// The last capture of the list, wherever the walk stands.
    pub fn last(self) -> (capture: Option<Capture>)
        ensures
            capture == capture_at(self.captures(), self.captures().len() - 1),
    {
        let count: usize = self.caps.get().len();
        if count == 0 {
            None
        } else {
            self.caps.get().get(count - 1)
        }
    }

    /// Skips `n` captures and gives the one after them, if there is one.
    ///
    /// The walk moves on by `n`, and by one more if it has found a capture.
    pub fn nth(&mut self, n: usize) -> (capture: Option<Capture>)
        requires
            old(self).position() + n <= usize::MAX,
        ensures
            capture == capture_at(old(self).captures(), old(self).position() + n),
            final(self).captures() == old(self).captures(),
            final(self).position() == old(self).position() + n + if capture is Some {
                1int
            } else {
                0int
            },
    {
        self.index += n;
        self.next()
    }

    /// Whether the walk can skip `n` captures without its index leaving the
    /// range of the machine's integers.
    pub fn can_skip(&self, n: usize) -> (fits: bool)
        ensures
            fits == (self.position() + n <= usize::MAX),
    {
        n <= usize::MAX - self.index
    }
}

} // verus!
