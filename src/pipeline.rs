//! The capture side: the rectangle it last heard of, and what it does with
//! each result of the frame source.

use vstd::prelude::*;
use crate::channel::{sent_all, Received, SlotState, lemma_last_send_wins};
use crate::crop::{crop_bytes, cropped_bytes};
use crate::frame::{CropRegion, CroppedFrame, RawFrame};

verus! {

/// What one attempt to take a frame from the frame source gave.
#[derive(Debug)]
pub enum CaptureResult {
    /// A full-monitor frame.
    Frame(RawFrame),
    /// No frame is ready yet; not an error.
    Pending,
    /// The device is lost or permission was revoked.
    Fatal,
}

/// What the capture loop does next.
#[derive(Debug)]
pub enum ProducerAction {
    /// Offer this frame to the consumer, latest-wins.
    Deliver(CroppedFrame),
    /// Nothing to deliver; try again on the next round.
    Retry,
    /// End the capture loop and close the link, so the consumer shuts down.
    Stop,
}

/// `region` after the size update that a receive returned, if it returned one.
pub open spec fn with_size(region: CropRegion, update: Received<(u32, u32)>) -> CropRegion {
    match update {
        Received::Value((w, h)) => CropRegion { width: w, height: h, ..region },
        _ => region,
    }
}

/// `region` after the position update that a receive returned, if any.
pub open spec fn with_position(region: CropRegion, update: Received<(i32, i32)>) -> CropRegion {
    match update {
        Received::Value((x, y)) => CropRegion { x: x as i64, y: y as i64, ..region },
        _ => region,
    }
}

/// Whether a buffer for `region` can be addressed.
pub fn region_fits(region: CropRegion) -> (b: bool)
    ensures
        b == region.fits_memory(),
{
    let w: u128 = region.width as u128;
    let h: u128 = region.height as u128;
    assert(w * h <= 0xffff_ffff_ffff_ffff_ffff_ffff) by (nonlinear_arith)
        requires
            w < 0x1_0000_0000,
            h < 0x1_0000_0000,
    ;
    w * h * 4 <= usize::MAX as u128
}

/// Capture-side state: the last rectangle it has heard of.  Updates from the
/// render side arrive one per axis and are applied before each crop; until one
/// arrives the last known rectangle is used.
pub struct CaptureState {
    pub region: CropRegion,
}

impl CaptureState {
    pub fn new(region: CropRegion) -> (s: Self)
        ensures
            s.region == region,
    {
        CaptureState { region }
    }

    /// Applies what the non-blocking receives on the size and position
    /// channels returned.
    pub fn apply_updates(&mut self, size: Received<(u32, u32)>, position: Received<(i32, i32)>)
        ensures
            final(self).region == with_position(with_size(old(self).region, size), position),
    {
        if let Received::Value((w, h)) = size {
            self.region.width = w;
            self.region.height = h;
        }
        if let Received::Value((x, y)) = position {
            self.region.x = x as i64;
            self.region.y = y as i64;
        }
    }

    /// Crops a captured frame to the current rectangle; `None` where a buffer
    /// of the rectangle's size cannot be addressed.
    pub fn produce(&self, raw: &RawFrame) -> (r: Option<CroppedFrame>)
        ensures
            r is Some <==> self.region.fits_memory(),
            r matches Some(f) ==> f.width == self.region.width && f.height == self.region.height
                && f.pixels@ == cropped_bytes(raw.data@, raw.format, self.region) && f.wf(),
    {
        if region_fits(self.region) {
            let pixels = crop_bytes(raw.data.as_slice(), raw.format, self.region);
            Some(CroppedFrame { width: self.region.width, height: self.region.height, pixels })
        } else {
            None
        }
    }
}

/// Size updates sent one after another into a latest-wins slot, then received
/// once and applied, leave the capture rectangle at the last size sent; the
/// origin is untouched, however many frames were cropped in between.
pub proof fn lemma_last_resize_wins(
    slot: SlotState<(u32, u32)>,
    sizes: Seq<(u32, u32)>,
    region: CropRegion,
)
    requires
        sizes.len() > 0,
    ensures
        with_size(region, sent_all(slot, sizes).receive_result()) == (CropRegion {
            width: sizes.last().0,
            height: sizes.last().1,
            ..region
        }),
{
    lemma_last_send_wins(slot, sizes);
}


impl CaptureState {
    /// One round of the capture loop: apply the geometry updates received,
    /// then act on what the frame source gave.  A frame is cropped to the
    /// updated rectangle; a pending source, or a rectangle too large to
    /// address, means retry; a fatal error stops the loop.
    pub fn step(
        &mut self,
        size: Received<(u32, u32)>,
        position: Received<(i32, i32)>,
        captured: CaptureResult,
    ) -> (action: ProducerAction)
        ensures
            final(self).region == with_position(with_size(old(self).region, size), position),
            captured is Fatal ==> action is Stop,
            captured is Pending ==> action is Retry,
            captured matches CaptureResult::Frame(raw) ==> if final(self).region.fits_memory() {
                action matches ProducerAction::Deliver(f) && f.width == final(self).region.width
                    && f.height == final(self).region.height
                    && f.pixels@ == cropped_bytes(raw.data@, raw.format, final(self).region)
            } else {
                action is Retry
            },
    {
        self.apply_updates(size, position);
        match captured {
            CaptureResult::Frame(raw) => match self.produce(&raw) {
                Some(f) => ProducerAction::Deliver(f),
                None => ProducerAction::Retry,
            },
            CaptureResult::Pending => ProducerAction::Retry,
            CaptureResult::Fatal => ProducerAction::Stop,
        }
    }
}

} // verus!
