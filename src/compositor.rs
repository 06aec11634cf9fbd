//! What each render tick presents.

use vstd::prelude::*;
use crate::channel::Received;
use crate::frame::{rgba_len, CroppedFrame};

verus! {

/// The byte of every channel of the privacy fill: a neutral gray.
pub const PRIVACY_FILL: u8 = 128;

/// A uniform buffer of `len` bytes, each `PRIVACY_FILL`.
pub open spec fn privacy_fill(len: int) -> Seq<u8> {
    Seq::new(len as nat, |i: int| PRIVACY_FILL)
}

/// What a render tick asks the presentation surface to do.
#[derive(Debug, PartialEq, Eq)]
pub enum TickAction {
    /// Present this RGBA buffer.
    Present(Vec<u8>),
    /// The capture side failed for good: end the loop.
    Shutdown,
}

/// Render-side state: the window's size and the newest frame received.
pub struct Compositor {
    width: u32,
    height: u32,
    latest: Option<CroppedFrame>,
}

impl Compositor {
    pub closed spec fn width_spec(&self) -> u32 {
        self.width
    }

    pub closed spec fn height_spec(&self) -> u32 {
        self.height
    }

    /// The newest frame received, if any.
    pub closed spec fn latest_spec(&self) -> Option<Seq<u8>> {
        match self.latest {
            Some(f) => Some(f.pixels@),
            None => None,
        }
    }

    /// The window's buffer can be addressed.
    pub open spec fn wf(&self) -> bool {
        rgba_len(self.width_spec() as int, self.height_spec() as int) <= usize::MAX
    }

    /// What is presented when unfocused: the newest frame as it came, or an
    /// empty placeholder before any has come.
    pub open spec fn shown(&self) -> Seq<u8> {
        match self.latest_spec() {
            Some(p) => p,
            None => Seq::empty(),
        }
    }

    /// A compositor for a window of the given size that has received nothing.
    pub fn new(width: u32, height: u32) -> (c: Self)
        requires
            rgba_len(width as int, height as int) <= usize::MAX,
        ensures
            c.width_spec() == width,
            c.height_spec() == height,
            c.latest_spec() is None,
            c.wf(),
    {
        Compositor { width, height, latest: None }
    }

    /// The window was resized; the privacy fill follows its size.
    pub fn resize(&mut self, width: u32, height: u32)
        requires
            rgba_len(width as int, height as int) <= usize::MAX,
        ensures
            final(self).width_spec() == width,
            final(self).height_spec() == height,
            final(self).latest_spec() == old(self).latest_spec(),
            final(self).wf(),
    {
        self.width = width;
        self.height = height;
    }

    /// One render tick, given what the non-blocking receive returned and
    /// whether the window has focus.  A received frame becomes the newest.
    /// A disconnected channel ends the loop.  With focus the uniform privacy
    /// fill of the window's size is presented, whatever frame came; without,
    /// the newest frame is presented unchanged.
    pub fn tick(&mut self, received: Received<CroppedFrame>, focused: bool) -> (action: TickAction)
        requires
            old(self).wf(),
        ensures
            final(self).wf(),
            final(self).width_spec() == old(self).width_spec(),
            final(self).height_spec() == old(self).height_spec(),
            received matches Received::Value(f) ==> final(self).latest_spec() == Some(f.pixels@),
            !(received is Value) ==> final(self).latest_spec() == old(self).latest_spec(),
            received is Disconnected ==> action is Shutdown,
            !(received is Disconnected) && focused ==> (action matches TickAction::Present(b) && b@
                == privacy_fill(rgba_len(old(self).width_spec() as int, old(self).height_spec() as int))),
            !(received is Disconnected) && !focused ==> (action matches TickAction::Present(b) && b@
                == final(self).shown()),
    {
        match received {
            Received::Value(f) => {
                self.latest = Some(f);
            },
            Received::Empty => {},
            Received::Disconnected => {
                return TickAction::Shutdown;
            },
        }
        if focused {
            let len: usize = self.width as usize * self.height as usize * 4;
            TickAction::Present(uniform_buffer(len, PRIVACY_FILL))
        } else {
            match &self.latest {
                Some(f) => TickAction::Present(copy_bytes(&f.pixels)),
                None => TickAction::Present(Vec::new()),
            }
        }
    }
}

/// Counts consecutive presentation failures: a single failure is reported and
/// the loop goes on, while `limit` failures in a row end it.
pub struct PresentationHealth {
    pub consecutive_failures: u32,
    pub limit: u32,
}

impl PresentationHealth {
    /// No failure yet; `limit` failures in a row are fatal.
    pub fn new(limit: u32) -> (h: Self)
        requires
            limit > 1,
        ensures
            h.consecutive_failures == 0,
            h.limit == limit,
    {
        PresentationHealth { consecutive_failures: 0, limit }
    }

    /// Records whether the last presentation succeeded; returns whether the
    /// render loop goes on.  A success clears the count.
    pub fn record(&mut self, succeeded: bool) -> (go_on: bool)
        ensures
            final(self).limit == old(self).limit,
            succeeded ==> final(self).consecutive_failures == 0,
            !succeeded ==> final(self).consecutive_failures == (if old(self).consecutive_failures == u32::MAX {
                u32::MAX as int
            } else {
                old(self).consecutive_failures + 1
            }),
            go_on == (final(self).consecutive_failures < final(self).limit),
    {
        if succeeded {
            self.consecutive_failures = 0;
        } else if self.consecutive_failures < u32::MAX {
            self.consecutive_failures = self.consecutive_failures + 1;
        }
        self.consecutive_failures < self.limit
    }
}

/// `len` bytes, each `value`.
fn uniform_buffer(len: usize, value: u8) -> (b: Vec<u8>)
    ensures
        b@ == Seq::new(len as nat, |i: int| value),
{
    let mut b: Vec<u8> = Vec::with_capacity(len);
    let mut i: usize = 0;
    while i < len
        invariant
            i <= len,
            b@ == Seq::new(i as nat, |k: int| value),
        decreases len - i,
    {
        b.push(value);
        i = i + 1;
        assert(b@ =~= Seq::new(i as nat, |k: int| value));
    }
    b
}

/// A copy of `src`.
fn copy_bytes(src: &Vec<u8>) -> (b: Vec<u8>)
    ensures
        b@ == src@,
{
    let mut b: Vec<u8> = Vec::with_capacity(src.len());
    let mut i: usize = 0;
    while i < src.len()
        invariant
            i <= src.len(),
            b@ == src@.take(i as int),
        decreases src.len() - i,
    {
        b.push(src[i]);
        i = i + 1;
        assert(b@ =~= src@.take(i as int));
    }
    assert(src@.take(src@.len() as int) =~= src@);
    b
}

} // verus!
