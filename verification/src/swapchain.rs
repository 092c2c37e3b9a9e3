//! The presentable image chain: acquire/present cycle and the
//! `Valid -> Stale -> recreate -> Valid` state machine driven by resize
//! and out-of-date reports. Recreation with a zero-sized extent fails with
//! `UnsupportedDimensions`; the caller skips the frame and retries.

use vstd::prelude::*;

verus! {

#[derive(Clone, Copy, PartialEq, Eq, Structural, Debug)]
pub enum SwapchainState {
    Valid,
    Stale,
}

/// The one recoverable error of recreation: a zero-sized window.
#[derive(Clone, Copy, PartialEq, Eq, Structural, Debug)]
pub enum SwapchainError {
    UnsupportedDimensions,
}

/// The presentable image chain: its extent, image count, and whether it
/// is usable or awaiting recreation. An out-of-date report from the
/// acquire call moves it to `Stale` instead of propagating as an error.
#[derive(Clone, Copy, PartialEq, Eq, Structural, Debug)]
pub struct SwapchainController {
    pub state: SwapchainState,
    pub width: u32,
    pub height: u32,
    pub image_count: usize,
    pub acquired: u64,
}

/// The state after a resize notification: the new extent is stored and the
/// chain is stale until recreated.
pub open spec fn spec_resize(s: SwapchainController, width: u32, height: u32) -> SwapchainController {
    SwapchainController { state: SwapchainState::Stale, width, height, ..s }
}

/// The state after `recreate`: valid again if the stored extent is usable,
/// unchanged otherwise.
pub open spec fn spec_recreate(s: SwapchainController) -> SwapchainController {
    if s.width > 0 && s.height > 0 {
        SwapchainController { state: SwapchainState::Valid, ..s }
    } else {
        s
    }
}

impl SwapchainController {
    pub open spec fn spec_state(self) -> SwapchainState {
        self.state
    }

    pub open spec fn spec_width(self) -> u32 {
        self.width
    }

    pub open spec fn spec_height(self) -> u32 {
        self.height
    }

    /// How many presentable images the chain holds; framebuffer counts and
    /// frames-in-flight both equal this.
    pub open spec fn spec_image_count(self) -> usize {
        self.image_count
    }

    pub fn new(width: u32, height: u32, image_count: usize) -> (r: SwapchainController)
        requires
            image_count >= 1,
            width > 0,
            height > 0,
        ensures
            r.spec_state() is Valid,
            r.spec_width() == width,
            r.spec_height() == height,
            r.spec_image_count() == image_count,
            r.acquired == 0,
    {
        SwapchainController { state: SwapchainState::Valid, width, height, image_count, acquired: 0 }
    }

    /// Resize notification: store the new extent and mark the chain stale.
    /// Nothing may be drawn until `recreate` succeeds.
    pub fn set_screen_resolution(&mut self, width: u32, height: u32)
        ensures
            *final(self) == spec_resize(*old(self), width, height),
    {
        self.width = width;
        self.height = height;
        self.state = SwapchainState::Stale;
    }

    /// Rebuild the chain against the stored extent. Fails without changing
    /// state when the extent is unusable (zero-sized window): the caller
    /// must skip the frame and retry on the next loop iteration.
    pub fn recreate(&mut self) -> (r: Result<(), SwapchainError>)
        ensures
            *final(self) == spec_recreate(*old(self)),
            r is Ok <==> old(self).spec_width() > 0 && old(self).spec_height() > 0,
            r is Err ==> r == Result::<(), SwapchainError>::Err(
                SwapchainError::UnsupportedDimensions,
            ),
    {
        if self.width == 0 || self.height == 0 {
            Err(SwapchainError::UnsupportedDimensions)
        } else {
            self.state = SwapchainState::Valid;
            Ok(())
        }
    }

    /// Acquire the next presentable image, cycling through the chain. Only
    /// legal while the chain is valid; drawing while stale is a logic
    /// error kept out by the precondition.
    pub fn acquire_next_image(&mut self) -> (idx: usize)
        requires
            old(self).spec_state() is Valid,
            old(self).spec_image_count() >= 1,
            old(self).acquired < u64::MAX,
        ensures
            idx == old(self).acquired % (old(self).spec_image_count() as u64),
            idx < old(self).spec_image_count(),
            final(self).acquired == old(self).acquired as int + 1,
            final(self).spec_state() == old(self).spec_state(),
            final(self).spec_width() == old(self).spec_width(),
            final(self).spec_height() == old(self).spec_height(),
            final(self).spec_image_count() == old(self).spec_image_count(),
    {
        let idx = (self.acquired % (self.image_count as u64)) as usize;
        self.acquired = self.acquired + 1;
        proof {
            assert(idx < self.image_count) by {
                assert(self.image_count >= 1);
            }
        }
        idx
    }

    /// The acquire call reported the chain out of date: transition to
    /// `Stale` rather than treating it as a failure.
    pub fn note_out_of_date(&mut self)
        ensures
            final(self).spec_state() is Stale,
            final(self).spec_width() == old(self).spec_width(),
            final(self).spec_height() == old(self).spec_height(),
            final(self).spec_image_count() == old(self).spec_image_count(),
            final(self).acquired == old(self).acquired,
    {
        self.state = SwapchainState::Stale;
    }

    pub fn is_valid(&self) -> (r: bool)
        ensures
            r == (self.spec_state() is Valid),
    {
        matches!(self.state, SwapchainState::Valid)
    }

    pub fn get_width(&self) -> (r: u32)
        ensures
            r == self.spec_width(),
    {
        self.width
    }

    pub fn get_height(&self) -> (r: u32)
        ensures
            r == self.spec_height(),
    {
        self.height
    }

    pub fn get_image_count(&self) -> (r: usize)
        ensures
            r == self.spec_image_count(),
    {
        self.image_count
    }
}

/// Swapchain recreation is idempotent: notifying the same dimensions twice
/// and recreating after each leaves the controller exactly where one
/// resize-and-recreate left it.
pub proof fn lemma_recreate_idempotent(s: SwapchainController, width: u32, height: u32)
    ensures
        spec_recreate(spec_resize(spec_recreate(spec_resize(s, width, height)), width, height))
            == spec_recreate(spec_resize(s, width, height)),
{
}

} // verus!
